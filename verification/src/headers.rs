//! HTTP/3 field sections before encoding and after decoding: the
//! pseudo-headers of a message and its ordinary fields.

use vstd::prelude::*;
use crate::error::{Error, HeaderError};

verus! {

/// A response status: a number of three digits.
#[derive(Clone, Copy, Debug, PartialEq, Eq, Structural)]
pub struct StatusCode(u16);

impl StatusCode {
    #[verifier::type_invariant]
    spec fn three_digits(self) -> bool {
        100 <= self.0 < 1000
    }

    /// The status as a number.
    pub closed spec fn spec_as_u16(self) -> u16 {
        self.0
    }

    /// The status `code`, if it has three digits.
    pub fn from_u16(code: u16) -> (r: Option<StatusCode>)
        ensures
            match r {
                Some(status) => status.spec_as_u16() == code && 100 <= code < 1000,
                None => !(100 <= code < 1000),
            },
    {
        if 100 <= code && code < 1000 {
            Some(StatusCode(code))
        } else {
            None
        }
    }

    /// The status as a number.
    #[verifier::when_used_as_spec(spec_as_u16)]
    pub fn as_u16(self) -> (code: u16)
        ensures
            code == self.spec_as_u16(),
            100 <= code < 1000,
    {
        proof {
            use_type_invariant(self);
        }
        self.0
    }
}

/// The version of HTTP that a message belongs to.
#[derive(Clone, Copy, Debug, PartialEq, Eq, Structural)]
pub enum Version {
    Http09,
    Http10,
    Http11,
    Http2,
    Http3,
}

/// One ordinary field: a name and a value.
#[derive(Debug, PartialEq, Eq)]
pub struct HeaderField {
    pub name: Vec<u8>,
    pub value: Vec<u8>,
}

/// The target of a request, in the parts that HTTP/3 sends apart.
#[derive(Debug, PartialEq, Eq)]
pub struct Uri {
    pub scheme: Option<Vec<u8>>,
    pub authority: Option<Vec<u8>>,
    pub path: Vec<u8>,
}

/// The pseudo-headers of a message.
#[derive(Debug, PartialEq, Eq)]
pub struct Pseudo {
    pub method: Option<Vec<u8>>,
    pub scheme: Option<Vec<u8>>,
    pub authority: Option<Vec<u8>>,
    pub path: Option<Vec<u8>>,
    pub status: Option<StatusCode>,
}

/// A field section: pseudo-headers, then ordinary fields in order.
#[derive(Debug, PartialEq, Eq)]
pub struct Header {
    pub pseudo: Pseudo,
    pub fields: Vec<HeaderField>,
}

/// The first byte of every pseudo-header's name.
pub const COLON: u8 = 0x3a;

/// An upper-case ASCII letter.
pub open spec fn is_upper(b: u8) -> bool {
    0x41 <= b <= 0x5a
}

/// Why a field of this name may not be sent, if it may not: the name is
/// empty, it is that of a pseudo-header, or it holds an upper-case letter.
pub open spec fn field_name_error(name: Seq<u8>) -> Option<HeaderError> {
    if name.len() == 0 {
        Some(HeaderError::InvalidFieldName)
    } else if name[0] == COLON {
        Some(HeaderError::ForbiddenPseudoHeader)
    } else if exists|i: int| 0 <= i < name.len() && is_upper(#[trigger] name[i]) {
        Some(HeaderError::InvalidFieldName)
    } else {
        None
    }
}

/// The refusal of the first field from index `from` on that may not be sent.
pub open spec fn first_field_error_from(fields: Seq<HeaderField>, from: int) -> Option<HeaderError>
    decreases fields.len() - from,
{
    if from < 0 || from >= fields.len() {
        None
    } else {
        match field_name_error(fields[from].name@) {
            Some(e) => Some(e),
            None => first_field_error_from(fields, from + 1),
        }
    }
}

/// The refusal of the first field that may not be sent, if there is one.
pub open spec fn first_field_error(fields: Seq<HeaderField>) -> Option<HeaderError> {
    first_field_error_from(fields, 0)
}

/// Checks one field name against the rules for sending.
pub fn check_field_name(name: &Vec<u8>) -> (r: Result<(), HeaderError>)
    ensures
        r == match field_name_error(name@) {
            Some(e) => Err::<(), HeaderError>(e),
            None => Ok(()),
        },
{
    if name.len() == 0 {
        return Err(HeaderError::InvalidFieldName);
    }
    if name[0] == COLON {
        return Err(HeaderError::ForbiddenPseudoHeader);
    }
    let mut i: usize = 0;
    while i < name.len()
        invariant
            i <= name.len(),
            name@.len() > 0,
            name@[0] != COLON,
            forall|j: int| 0 <= j < i ==> !is_upper(#[trigger] name@[j]),
        decreases name.len() - i,
    {
        let b: u8 = name[i];
        if 0x41 <= b && b <= 0x5a {
            assert(is_upper(name@[i as int]));
            return Err(HeaderError::InvalidFieldName);
        }
        i += 1;
    }
    Ok(())
}

/// Checks the ordinary fields of a message against the rules for sending, in
/// order, and reports the first refusal.
pub fn check_fields(fields: &Vec<HeaderField>) -> (r: Result<(), HeaderError>)
    ensures
        r == match first_field_error(fields@) {
            Some(e) => Err::<(), HeaderError>(e),
            None => Ok(()),
        },
{
    let mut i: usize = 0;
    while i < fields.len()
        invariant
            i <= fields.len(),
            first_field_error(fields@) == first_field_error_from(fields@, i as int),
        decreases fields.len() - i,
    {
        match check_field_name(&fields[i].name) {
            Err(e) => {
                return Err(e);
            },
            Ok(()) => {},
        }
        i += 1;
    }
    Ok(())
}

/// What one field counts for in the size of a field section: its name,
/// its value, and 32 bytes more.
pub open spec fn field_size(name_len: nat, value_len: nat) -> nat {
    name_len + value_len + 32
}

/// What the ordinary fields count for together.
pub open spec fn fields_size(fields: Seq<HeaderField>) -> nat
    decreases fields.len(),
{
    if fields.len() == 0 {
        0
    } else {
        fields_size(fields.drop_last()) + field_size(
            fields.last().name@.len(),
            fields.last().value@.len(),
        )
    }
}

/// What a pseudo-header counts for, if it is there: `name_len` is the
/// length of its name, colon included.
pub open spec fn pseudo_size(name_len: nat, value: Option<Vec<u8>>) -> nat {
    match value {
        Some(v) => field_size(name_len, v@.len()),
        None => 0,
    }
}

/// `n`, or the largest number that 64 bits hold where `n` is larger.
pub open spec fn capped(n: int) -> int {
    if n <= u64::MAX {
        n
    } else {
        u64::MAX as int
    }
}

/// `a + b`, or the largest number where the sum is larger.
fn add_capped(a: u64, b: usize) -> (sum: u64)
    ensures
        sum == capped(a + b),
{
    if b as u64 > u64::MAX - a {
        u64::MAX
    } else {
        a + b as u64
    }
}

/// Adds what a pseudo-header counts for to `total`.
fn add_pseudo(total: u64, name_len: usize, value: &Option<Vec<u8>>) -> (sum: u64)
    requires
        name_len <= 16,
    ensures
        sum == capped(total + pseudo_size(name_len as nat, *value)),
{
    match value {
        Some(v) => add_capped(add_capped(total, v.len()), name_len + 32),
        None => total,
    }
}

impl Header {
    /// The size of the field section as the limit on field sections counts
    /// it: each field, pseudo-headers among them, with its name, its value
    /// and 32 bytes more. A status counts with its three digits.
    pub open spec fn spec_size(&self) -> nat {
        pseudo_size(7, self.pseudo.method) + pseudo_size(7, self.pseudo.scheme) + pseudo_size(
            10,
            self.pseudo.authority,
        ) + pseudo_size(5, self.pseudo.path) + (if self.pseudo.status is Some {
            field_size(7, 3)
        } else {
            0
        }) + fields_size(self.fields@)
    }

    /// The size of the field section, or the largest number where the size
    /// is larger.
    pub fn size(&self) -> (n: u64)
        ensures
            n == capped(self.spec_size() as int),
    {
        let mut total: u64 = 0;
        total = add_pseudo(total, 7, &self.pseudo.method);
        total = add_pseudo(total, 7, &self.pseudo.scheme);
        total = add_pseudo(total, 10, &self.pseudo.authority);
        total = add_pseudo(total, 5, &self.pseudo.path);
        if self.pseudo.status.is_some() {
            total = add_capped(total, 42);
        }
        let ghost head = pseudo_size(7, self.pseudo.method) + pseudo_size(7, self.pseudo.scheme)
            + pseudo_size(10, self.pseudo.authority) + pseudo_size(5, self.pseudo.path) + (
        if self.pseudo.status is Some {
            field_size(7, 3)
        } else {
            0
        });
        let mut i: usize = 0;
        assert(self.fields@.take(0) =~= Seq::empty());
        while i < self.fields.len()
            invariant
                i <= self.fields@.len(),
                total == capped((head + fields_size(self.fields@.take(i as int))) as int),
            decreases self.fields@.len() - i,
        {
            let field = &self.fields[i];
            assert(self.fields@.take(i + 1).drop_last() =~= self.fields@.take(i as int));
            assert(self.fields@.take(i + 1).last() == self.fields@[i as int]);
            total = add_capped(add_capped(add_capped(total, field.name.len()), field.value.len()), 32);
            i += 1;
        }
        assert(self.fields@.take(i as int) =~= self.fields@);
        total
    }

    /// The field section of a request for `uri` with `method`.
    pub open spec fn spec_request(method: Vec<u8>, uri: Uri, fields: Vec<HeaderField>) -> Header {
        Header {
            pseudo: Pseudo {
                method: Some(method),
                scheme: uri.scheme,
                authority: uri.authority,
                path: Some(uri.path),
                status: None,
            },
            fields,
        }
    }

    /// The field section of a response with `status`.
    pub open spec fn spec_response(status: StatusCode, fields: Vec<HeaderField>) -> Header {
        Header {
            pseudo: Pseudo {
                method: None,
                scheme: None,
                authority: None,
                path: None,
                status: Some(status),
            },
            fields,
        }
    }

    /// The field section of a request for `uri` with `method`: the method and
    /// the parts of the target become pseudo-headers, the fields stay as they are.
    pub fn request(method: Vec<u8>, uri: Uri, fields: Vec<HeaderField>) -> (h: Header)
        ensures
            h == Header::spec_request(method, uri, fields),
    {
        Header {
            pseudo: Pseudo {
                method: Some(method),
                scheme: uri.scheme,
                authority: uri.authority,
                path: Some(uri.path),
                status: None,
            },
            fields,
        }
    }

    /// The field section of a response with `status`.
    pub fn response(status: StatusCode, fields: Vec<HeaderField>) -> (h: Header)
        ensures
            h == Header::spec_response(status, fields),
    {
        Header {
            pseudo: Pseudo { method: None, scheme: None, authority: None, path: None, status: Some(status) },
            fields,
        }
    }

    /// Takes a response's field section apart: its status and its ordinary
    /// fields. A section without a status is refused.
    pub fn into_response_parts(self) -> (r: Result<(StatusCode, Vec<HeaderField>), Error>)
        ensures
            r == match self.pseudo.status {
                Some(status) => Ok::<(StatusCode, Vec<HeaderField>), Error>((status, self.fields)),
                None => Err(Error::HeaderDecoding(HeaderError::MissingStatus)),
            },
    {
        match self.pseudo.status {
            Some(status) => Ok((status, self.fields)),
            None => Err(Error::HeaderDecoding(HeaderError::MissingStatus)),
        }
    }
}

} // verus!
