use quic_h3::crypto::ring::{
    hkdf_expand_label, hkdf_label, nonce, AeadAlgorithm, Crypto, HashAlgorithm, HmacSha256Key, Label,
};
use quic_h3::crypto::{HeaderKeys, HmacKey, Keys};
use quic_h3::shared::{ConfigError, ConnectionId, Side};
use ring::hkdf::{HKDF_SHA256, HKDF_SHA384};

const DCID: [u8; 8] = [0x83, 0x94, 0xc8, 0xf0, 0x3e, 0x51, 0x57, 0x08];
const INITIAL_HEADER: [u8; 22] = [0xc3, 0x00, 0x00, 0x00, 0x01, 0x08, 0x83, 0x94, 0xc8, 0xf0, 0x3e, 0x51, 0x57, 0x08, 0x00, 0x00, 0x44, 0x9e, 0x00, 0x00, 0x00, 0x02];
const INITIAL_PAYLOAD: [u8; 43] = [0x74, 0x68, 0x65, 0x20, 0x71, 0x75, 0x69, 0x63, 0x6b, 0x20, 0x62, 0x72, 0x6f, 0x77, 0x6e, 0x20, 0x66, 0x6f, 0x78, 0x20, 0x6a, 0x75, 0x6d, 0x70, 0x73, 0x20, 0x6f, 0x76, 0x65, 0x72, 0x20, 0x74, 0x68, 0x65, 0x20, 0x6c, 0x61, 0x7a, 0x79, 0x20, 0x64, 0x6f, 0x67];
const CLIENT_INITIAL_SEALED: [u8; 59] = [0xa3, 0xd9, 0xec, 0x5c, 0xa7, 0x1d, 0xf6, 0x36, 0x84, 0x32, 0x5b, 0xc8, 0x24, 0x02, 0x43, 0x92, 0x87, 0x6c, 0x99, 0x5c, 0xe6, 0x9e, 0xb8, 0xb2, 0x82, 0x47, 0xdc, 0xbe, 0xd7, 0x54, 0x5f, 0x71, 0x4b, 0x56, 0x5e, 0xb4, 0xf2, 0x20, 0x52, 0xd0, 0xdf, 0xba, 0x7b, 0xb3, 0xa1, 0x71, 0xc8, 0x92, 0xda, 0x86, 0x93, 0x58, 0x97, 0x56, 0x03, 0x06, 0xef, 0xf2, 0xeb];
const SERVER_INITIAL_SEALED: [u8; 59] = [0x2c, 0x20, 0x49, 0xf0, 0xe8, 0x6f, 0xbb, 0x78, 0x3b, 0x8e, 0x22, 0x18, 0x61, 0x62, 0xdb, 0xf7, 0xdb, 0x88, 0x7c, 0xe9, 0x0d, 0xbd, 0xc5, 0x66, 0x09, 0xce, 0x03, 0xbd, 0xcc, 0x6a, 0x7e, 0xd2, 0xbe, 0x74, 0xab, 0x03, 0x78, 0x9b, 0xed, 0x04, 0x9b, 0x34, 0x55, 0x54, 0x51, 0x68, 0x67, 0x44, 0x7a, 0x1d, 0xcd, 0x7c, 0xe7, 0x5a, 0xa7, 0xa3, 0xf5, 0xd0, 0x41];
const CLIENT_INITIAL_PROTECTED: [u8; 81] = [0xcd, 0x00, 0x00, 0x00, 0x01, 0x08, 0x83, 0x94, 0xc8, 0xf0, 0x3e, 0x51, 0x57, 0x08, 0x00, 0x00, 0x44, 0x9e, 0x76, 0x43, 0x85, 0x76, 0xa3, 0xd9, 0xec, 0x5c, 0xa7, 0x1d, 0xf6, 0x36, 0x84, 0x32, 0x5b, 0xc8, 0x24, 0x02, 0x43, 0x92, 0x87, 0x6c, 0x99, 0x5c, 0xe6, 0x9e, 0xb8, 0xb2, 0x82, 0x47, 0xdc, 0xbe, 0xd7, 0x54, 0x5f, 0x71, 0x4b, 0x56, 0x5e, 0xb4, 0xf2, 0x20, 0x52, 0xd0, 0xdf, 0xba, 0x7b, 0xb3, 0xa1, 0x71, 0xc8, 0x92, 0xda, 0x86, 0x93, 0x58, 0x97, 0x56, 0x03, 0x06, 0xef, 0xf2, 0xeb];
const SERVER_INITIAL_PROTECTED: [u8; 81] = [0xcb, 0x00, 0x00, 0x00, 0x01, 0x08, 0x83, 0x94, 0xc8, 0xf0, 0x3e, 0x51, 0x57, 0x08, 0x00, 0x00, 0x44, 0x9e, 0x11, 0x3b, 0xe9, 0x02, 0x2c, 0x20, 0x49, 0xf0, 0xe8, 0x6f, 0xbb, 0x78, 0x3b, 0x8e, 0x22, 0x18, 0x61, 0x62, 0xdb, 0xf7, 0xdb, 0x88, 0x7c, 0xe9, 0x0d, 0xbd, 0xc5, 0x66, 0x09, 0xce, 0x03, 0xbd, 0xcc, 0x6a, 0x7e, 0xd2, 0xbe, 0x74, 0xab, 0x03, 0x78, 0x9b, 0xed, 0x04, 0x9b, 0x34, 0x55, 0x54, 0x51, 0x68, 0x67, 0x44, 0x7a, 0x1d, 0xcd, 0x7c, 0xe7, 0x5a, 0xa7, 0xa3, 0xf5, 0xd0, 0x41];
const CLIENT_INITIAL_SEALED_BIG_PN: [u8; 59] = [0x82, 0xe0, 0xd2, 0x2a, 0x7b, 0x84, 0xf2, 0x48, 0xa8, 0xbe, 0xd4, 0x60, 0xed, 0x7c, 0xa6, 0x19, 0xdf, 0xfc, 0x32, 0xe1, 0xa9, 0x5d, 0xec, 0x70, 0xe2, 0x1c, 0x26, 0x21, 0xfa, 0x06, 0x5b, 0x5d, 0x9b, 0x7c, 0x6b, 0x7e, 0x74, 0xdd, 0xbb, 0x62, 0xfa, 0x4c, 0x78, 0x1c, 0x64, 0x3d, 0x7c, 0x33, 0x8b, 0x02, 0x8a, 0x45, 0x23, 0x91, 0xd7, 0xaf, 0x4c, 0xed, 0xc4];
const AES128_CLIENT_SECRET: [u8; 32] = [0x01, 0x08, 0x0f, 0x16, 0x1d, 0x24, 0x2b, 0x32, 0x39, 0x40, 0x47, 0x4e, 0x55, 0x5c, 0x63, 0x6a, 0x71, 0x78, 0x7f, 0x86, 0x8d, 0x94, 0x9b, 0xa2, 0xa9, 0xb0, 0xb7, 0xbe, 0xc5, 0xcc, 0xd3, 0xda];
const AES128_SERVER_SECRET: [u8; 32] = [0x05, 0x12, 0x1f, 0x2c, 0x39, 0x46, 0x53, 0x60, 0x6d, 0x7a, 0x87, 0x94, 0xa1, 0xae, 0xbb, 0xc8, 0xd5, 0xe2, 0xef, 0xfc, 0x09, 0x16, 0x23, 0x30, 0x3d, 0x4a, 0x57, 0x64, 0x71, 0x7e, 0x8b, 0x98];
const AES128_HEADER: [u8; 12] = [0x4a, 0x01, 0x02, 0x03, 0x04, 0x05, 0x06, 0x07, 0x08, 0x00, 0x00, 0x2a];
const AES128_PAYLOAD: [u8; 29] = [0x61, 0x70, 0x70, 0x6c, 0x69, 0x63, 0x61, 0x74, 0x69, 0x6f, 0x6e, 0x20, 0x64, 0x61, 0x74, 0x61, 0x20, 0x75, 0x6e, 0x64, 0x65, 0x72, 0x20, 0x41, 0x45, 0x53, 0x31, 0x32, 0x38];
const AES128_SEALED: [u8; 45] = [0xb2, 0x59, 0xe7, 0x28, 0x77, 0x1d, 0xfb, 0xe9, 0x47, 0x54, 0x36, 0x8b, 0xb3, 0xdc, 0x52, 0x21, 0x51, 0xae, 0xba, 0xc9, 0x83, 0x3b, 0x19, 0x33, 0x2c, 0xfb, 0x26, 0x7f, 0x1d, 0xd1, 0x31, 0x35, 0xf9, 0x41, 0xfe, 0xa4, 0x14, 0xa7, 0x31, 0xaa, 0xf3, 0x59, 0x71, 0x59, 0x87];
const AES128_PROTECTED: [u8; 57] = [0x5e, 0x01, 0x02, 0x03, 0x04, 0x05, 0x06, 0x07, 0x08, 0xa2, 0x02, 0x63, 0xb2, 0x59, 0xe7, 0x28, 0x77, 0x1d, 0xfb, 0xe9, 0x47, 0x54, 0x36, 0x8b, 0xb3, 0xdc, 0x52, 0x21, 0x51, 0xae, 0xba, 0xc9, 0x83, 0x3b, 0x19, 0x33, 0x2c, 0xfb, 0x26, 0x7f, 0x1d, 0xd1, 0x31, 0x35, 0xf9, 0x41, 0xfe, 0xa4, 0x14, 0xa7, 0x31, 0xaa, 0xf3, 0x59, 0x71, 0x59, 0x87];
const AES128_NEXT_SEALED: [u8; 45] = [0x3b, 0x9a, 0xf3, 0x4a, 0xe9, 0x2b, 0xcd, 0x82, 0xa9, 0x35, 0xaa, 0x57, 0x1e, 0x8e, 0x84, 0x85, 0xd4, 0x4b, 0x60, 0x20, 0x32, 0xd4, 0xc8, 0xdc, 0x34, 0xad, 0x3f, 0x61, 0x87, 0xa8, 0xf4, 0xc0, 0x23, 0x12, 0x0d, 0x51, 0xee, 0x33, 0x1e, 0x8e, 0x88, 0x75, 0x5b, 0x1c, 0x29];
const AES128_NEXT_SEALED_BY_SERVER: [u8; 45] = [0xed, 0xb3, 0xcd, 0xf5, 0x39, 0x30, 0xd2, 0x21, 0x49, 0xe9, 0xae, 0x28, 0x7e, 0x55, 0x31, 0x2a, 0xac, 0x88, 0x92, 0x98, 0xab, 0x6a, 0x2d, 0x13, 0x1b, 0x17, 0xa4, 0x29, 0x3e, 0x1b, 0x52, 0x84, 0x65, 0xd9, 0x30, 0xde, 0x20, 0xe6, 0x6d, 0xdd, 0x6c, 0x7a, 0xa2, 0x73, 0x03];
const AES256_CLIENT_SECRET: [u8; 48] = [0x01, 0x08, 0x0f, 0x16, 0x1d, 0x24, 0x2b, 0x32, 0x39, 0x40, 0x47, 0x4e, 0x55, 0x5c, 0x63, 0x6a, 0x71, 0x78, 0x7f, 0x86, 0x8d, 0x94, 0x9b, 0xa2, 0xa9, 0xb0, 0xb7, 0xbe, 0xc5, 0xcc, 0xd3, 0xda, 0xe1, 0xe8, 0xef, 0xf6, 0xfd, 0x04, 0x0b, 0x12, 0x19, 0x20, 0x27, 0x2e, 0x35, 0x3c, 0x43, 0x4a];
const AES256_SERVER_SECRET: [u8; 48] = [0x05, 0x12, 0x1f, 0x2c, 0x39, 0x46, 0x53, 0x60, 0x6d, 0x7a, 0x87, 0x94, 0xa1, 0xae, 0xbb, 0xc8, 0xd5, 0xe2, 0xef, 0xfc, 0x09, 0x16, 0x23, 0x30, 0x3d, 0x4a, 0x57, 0x64, 0x71, 0x7e, 0x8b, 0x98, 0xa5, 0xb2, 0xbf, 0xcc, 0xd9, 0xe6, 0xf3, 0x00, 0x0d, 0x1a, 0x27, 0x34, 0x41, 0x4e, 0x5b, 0x68];
const AES256_HEADER: [u8; 12] = [0x4a, 0x01, 0x02, 0x03, 0x04, 0x05, 0x06, 0x07, 0x08, 0x00, 0x00, 0x2a];
const AES256_PAYLOAD: [u8; 29] = [0x61, 0x70, 0x70, 0x6c, 0x69, 0x63, 0x61, 0x74, 0x69, 0x6f, 0x6e, 0x20, 0x64, 0x61, 0x74, 0x61, 0x20, 0x75, 0x6e, 0x64, 0x65, 0x72, 0x20, 0x41, 0x45, 0x53, 0x32, 0x35, 0x36];
const AES256_SEALED: [u8; 45] = [0xb9, 0xd5, 0xca, 0x28, 0x74, 0x20, 0xe9, 0xf9, 0x6d, 0xdd, 0xbb, 0x5d, 0x6b, 0x8f, 0x02, 0x0b, 0x0b, 0x3b, 0x55, 0x5e, 0x39, 0x2a, 0x3b, 0x82, 0xbb, 0x63, 0x1d, 0x5c, 0x3d, 0xd3, 0x36, 0x0a, 0xd3, 0xd7, 0xae, 0x3b, 0xab, 0x8e, 0xd3, 0xb4, 0x10, 0x37, 0xb5, 0xc2, 0x98];
const AES256_PROTECTED: [u8; 57] = [0x44, 0x01, 0x02, 0x03, 0x04, 0x05, 0x06, 0x07, 0x08, 0x9d, 0x2a, 0x38, 0xb9, 0xd5, 0xca, 0x28, 0x74, 0x20, 0xe9, 0xf9, 0x6d, 0xdd, 0xbb, 0x5d, 0x6b, 0x8f, 0x02, 0x0b, 0x0b, 0x3b, 0x55, 0x5e, 0x39, 0x2a, 0x3b, 0x82, 0xbb, 0x63, 0x1d, 0x5c, 0x3d, 0xd3, 0x36, 0x0a, 0xd3, 0xd7, 0xae, 0x3b, 0xab, 0x8e, 0xd3, 0xb4, 0x10, 0x37, 0xb5, 0xc2, 0x98];
const AES256_NEXT_SEALED: [u8; 45] = [0x5b, 0x7a, 0x11, 0xa1, 0xe5, 0x30, 0x93, 0x2b, 0x16, 0x67, 0x20, 0xd4, 0xb3, 0xfc, 0x42, 0x0b, 0x47, 0x4c, 0x83, 0xe3, 0xe8, 0x27, 0x66, 0xa6, 0xfc, 0xa1, 0x50, 0xa0, 0xb4, 0xf4, 0xf2, 0x80, 0xf8, 0xcb, 0x44, 0xca, 0xa6, 0x18, 0x64, 0xd4, 0xb0, 0x3b, 0xe4, 0x04, 0x1f];
const AES256_NEXT_SEALED_BY_SERVER: [u8; 45] = [0xde, 0xd8, 0x3a, 0xc6, 0xaa, 0x72, 0x9f, 0x0f, 0x35, 0x81, 0xdc, 0xb4, 0x40, 0x0e, 0xb4, 0x97, 0xa5, 0xa8, 0xa4, 0xac, 0x5b, 0xd5, 0x97, 0xe6, 0xe8, 0xb8, 0xd0, 0xe0, 0x4d, 0x15, 0x36, 0x97, 0xb6, 0x4b, 0x1f, 0x3c, 0x78, 0xf6, 0x6d, 0x1c, 0x31, 0x60, 0x03, 0xdb, 0xba];
const CHACHA_CLIENT_SECRET: [u8; 32] = [0x01, 0x08, 0x0f, 0x16, 0x1d, 0x24, 0x2b, 0x32, 0x39, 0x40, 0x47, 0x4e, 0x55, 0x5c, 0x63, 0x6a, 0x71, 0x78, 0x7f, 0x86, 0x8d, 0x94, 0x9b, 0xa2, 0xa9, 0xb0, 0xb7, 0xbe, 0xc5, 0xcc, 0xd3, 0xda];
const CHACHA_SERVER_SECRET: [u8; 32] = [0x05, 0x12, 0x1f, 0x2c, 0x39, 0x46, 0x53, 0x60, 0x6d, 0x7a, 0x87, 0x94, 0xa1, 0xae, 0xbb, 0xc8, 0xd5, 0xe2, 0xef, 0xfc, 0x09, 0x16, 0x23, 0x30, 0x3d, 0x4a, 0x57, 0x64, 0x71, 0x7e, 0x8b, 0x98];
const CHACHA_HEADER: [u8; 12] = [0x4a, 0x01, 0x02, 0x03, 0x04, 0x05, 0x06, 0x07, 0x08, 0x00, 0x00, 0x2a];
const CHACHA_PAYLOAD: [u8; 29] = [0x61, 0x70, 0x70, 0x6c, 0x69, 0x63, 0x61, 0x74, 0x69, 0x6f, 0x6e, 0x20, 0x64, 0x61, 0x74, 0x61, 0x20, 0x75, 0x6e, 0x64, 0x65, 0x72, 0x20, 0x43, 0x48, 0x41, 0x43, 0x48, 0x41];
const CHACHA_SEALED: [u8; 45] = [0x74, 0xfc, 0x26, 0x56, 0xca, 0x71, 0x94, 0xfe, 0x6d, 0x99, 0xff, 0x99, 0xc6, 0xa3, 0xb2, 0x71, 0x28, 0xcb, 0x6b, 0xa8, 0x5b, 0x72, 0x95, 0x4b, 0x12, 0xa6, 0x31, 0x6a, 0xf3, 0x18, 0x02, 0x5d, 0xf5, 0xdc, 0xab, 0x78, 0x05, 0x2e, 0xcb, 0x2b, 0x45, 0x81, 0x92, 0x34, 0x0f];
const CHACHA_PROTECTED: [u8; 57] = [0x5b, 0x01, 0x02, 0x03, 0x04, 0x05, 0x06, 0x07, 0x08, 0x46, 0x3c, 0x73, 0x74, 0xfc, 0x26, 0x56, 0xca, 0x71, 0x94, 0xfe, 0x6d, 0x99, 0xff, 0x99, 0xc6, 0xa3, 0xb2, 0x71, 0x28, 0xcb, 0x6b, 0xa8, 0x5b, 0x72, 0x95, 0x4b, 0x12, 0xa6, 0x31, 0x6a, 0xf3, 0x18, 0x02, 0x5d, 0xf5, 0xdc, 0xab, 0x78, 0x05, 0x2e, 0xcb, 0x2b, 0x45, 0x81, 0x92, 0x34, 0x0f];
const CHACHA_NEXT_SEALED: [u8; 45] = [0xca, 0x64, 0x4b, 0x3b, 0x5b, 0xfb, 0x4b, 0x48, 0xd2, 0xea, 0xda, 0xee, 0x2b, 0x16, 0xf2, 0x8f, 0x34, 0x85, 0x9f, 0x24, 0x9e, 0xce, 0xbc, 0xdf, 0x1d, 0x01, 0x8e, 0xad, 0x8d, 0x2c, 0x85, 0x13, 0xb4, 0x3f, 0x99, 0xc6, 0xd2, 0xf1, 0xe1, 0xe8, 0xf1, 0x1f, 0xd3, 0xa2, 0x51];
const CHACHA_NEXT_SEALED_BY_SERVER: [u8; 45] = [0xb5, 0x31, 0x13, 0x3f, 0xec, 0x40, 0x97, 0x16, 0xe9, 0x3d, 0x13, 0xa6, 0x7c, 0xc4, 0x07, 0xfb, 0x64, 0x7f, 0xe9, 0x5f, 0x89, 0x14, 0x4f, 0x3a, 0x64, 0x9b, 0xeb, 0xc3, 0x75, 0x1a, 0x44, 0xaf, 0xab, 0x78, 0x40, 0xf1, 0x60, 0x5e, 0x33, 0xa7, 0xb6, 0x63, 0x6d, 0xed, 0xd2];
const HMAC_KEY: [u8; 64] = [0x00, 0x01, 0x02, 0x03, 0x04, 0x05, 0x06, 0x07, 0x08, 0x09, 0x0a, 0x0b, 0x0c, 0x0d, 0x0e, 0x0f, 0x10, 0x11, 0x12, 0x13, 0x14, 0x15, 0x16, 0x17, 0x18, 0x19, 0x1a, 0x1b, 0x1c, 0x1d, 0x1e, 0x1f, 0x20, 0x21, 0x22, 0x23, 0x24, 0x25, 0x26, 0x27, 0x28, 0x29, 0x2a, 0x2b, 0x2c, 0x2d, 0x2e, 0x2f, 0x30, 0x31, 0x32, 0x33, 0x34, 0x35, 0x36, 0x37, 0x38, 0x39, 0x3a, 0x3b, 0x3c, 0x3d, 0x3e, 0x3f];
const HMAC_DATA: [u8; 11] = [0x72, 0x65, 0x74, 0x72, 0x79, 0x20, 0x74, 0x6f, 0x6b, 0x65, 0x6e];
const HMAC_TAG: [u8; 32] = [0x5a, 0x9b, 0xec, 0x3a, 0x57, 0x38, 0x66, 0xa8, 0xf3, 0xd0, 0x4e, 0xc6, 0xe0, 0x46, 0xa4, 0xdc, 0xcb, 0xb3, 0x98, 0x76, 0xa9, 0x25, 0x6e, 0x5d, 0x3f, 0x07, 0x92, 0x10, 0x83, 0x2c, 0x60, 0xae];

fn seal(keys: &Crypto, pn: u64, header: &[u8], payload: &[u8]) -> Vec<u8> {
    let mut buf = header.to_vec();
    buf.extend_from_slice(payload);
    buf.extend_from_slice(&[0xaa; 16]);
    keys.encrypt(pn, &mut buf, header.len());
    assert_eq!(&buf[..header.len()], header);
    buf.split_off(header.len())
}

fn open(keys: &Crypto, pn: u64, header: &[u8], sealed: &[u8]) -> Result<Vec<u8>, ()> {
    let mut payload = bytes::BytesMut::from(sealed);
    let r = keys.decrypt(pn, header, &mut payload);
    match r {
        Ok(()) => Ok(payload.to_vec()),
        Err(()) => {
            assert_eq!(payload.len(), sealed.len());
            Err(())
        }
    }
}

fn initial(side: Side) -> Crypto {
    Crypto::new_initial(&ConnectionId::new(&DCID).unwrap(), side)
}

fn aes128(side: Side) -> Crypto {
    Crypto::new(
        side,
        AeadAlgorithm::Aes128Gcm,
        Some(HashAlgorithm::Sha256),
        ring::hkdf::Prk::new_less_safe(HKDF_SHA256, &AES128_CLIENT_SECRET),
        ring::hkdf::Prk::new_less_safe(HKDF_SHA256, &AES128_SERVER_SECRET),
    )
}

fn aes256(side: Side) -> Crypto {
    Crypto::new(
        side,
        AeadAlgorithm::Aes256Gcm,
        Some(HashAlgorithm::Sha384),
        ring::hkdf::Prk::new_less_safe(HKDF_SHA384, &AES256_CLIENT_SECRET),
        ring::hkdf::Prk::new_less_safe(HKDF_SHA384, &AES256_SERVER_SECRET),
    )
}

fn chacha(side: Side) -> Crypto {
    Crypto::new(
        side,
        AeadAlgorithm::ChaCha20Poly1305,
        Some(HashAlgorithm::Sha256),
        ring::hkdf::Prk::new_less_safe(HKDF_SHA256, &CHACHA_CLIENT_SECRET),
        ring::hkdf::Prk::new_less_safe(HKDF_SHA256, &CHACHA_SERVER_SECRET),
    )
}

#[test]
fn initial_keys_seal_as_the_standard_says() {
    assert_eq!(seal(&initial(Side::Client), 2, &INITIAL_HEADER, &INITIAL_PAYLOAD), CLIENT_INITIAL_SEALED.to_vec());
    assert_eq!(seal(&initial(Side::Server), 1, &INITIAL_HEADER, &INITIAL_PAYLOAD), SERVER_INITIAL_SEALED.to_vec());
}

#[test]
fn initial_keys_are_the_same_every_time() {
    let a = seal(&initial(Side::Client), 7, &INITIAL_HEADER, b"same");
    let b = seal(&initial(Side::Client), 7, &INITIAL_HEADER, b"same");
    assert_eq!(a, b);
    let other = Crypto::new_initial(&ConnectionId::new(&[1, 2, 3, 4]).unwrap(), Side::Client);
    assert_ne!(seal(&other, 7, &INITIAL_HEADER, b"same"), a);
}

#[test]
fn initial_keys_of_client_and_server_fit() {
    let client = initial(Side::Client);
    let server = initial(Side::Server);
    let sealed = seal(&client, 2, &INITIAL_HEADER, &INITIAL_PAYLOAD);
    assert_eq!(open(&server, 2, &INITIAL_HEADER, &sealed), Ok(INITIAL_PAYLOAD.to_vec()));
    let sealed = seal(&server, 9, &INITIAL_HEADER, b"server hello");
    assert_eq!(open(&client, 9, &INITIAL_HEADER, &sealed), Ok(b"server hello".to_vec()));
    assert_eq!(open(&server, 2, &INITIAL_HEADER, &CLIENT_INITIAL_SEALED), Ok(INITIAL_PAYLOAD.to_vec()));
    assert_eq!(open(&client, 1, &INITIAL_HEADER, &SERVER_INITIAL_SEALED), Ok(INITIAL_PAYLOAD.to_vec()));
}

#[test]
fn an_end_does_not_open_what_it_sealed_itself() {
    let client = initial(Side::Client);
    let sealed = seal(&client, 2, &INITIAL_HEADER, &INITIAL_PAYLOAD);
    assert_eq!(open(&client, 2, &INITIAL_HEADER, &sealed), Err(()));
}

#[test]
fn decrypt_gives_back_what_encrypt_took() {
    for (sender, receiver) in vec![
        (aes128(Side::Client), aes128(Side::Server)),
        (aes128(Side::Server), aes128(Side::Client)),
        (aes256(Side::Client), aes256(Side::Server)),
        (chacha(Side::Server), chacha(Side::Client)),
    ] {
        for payload in vec![vec![], vec![0u8], vec![0x5a; 1200]] {
            for pn in vec![0u64, 1, 0xffff_ffff, u64::MAX] {
                let sealed = seal(&sender, pn, b"header", &payload);
                assert_eq!(sealed.len(), payload.len() + 16);
                assert_eq!(open(&receiver, pn, b"header", &sealed), Ok(payload.clone()));
            }
        }
    }
}

#[test]
fn another_packet_number_does_not_open() {
    let sealed = seal(&aes128(Side::Client), 5, b"header", b"payload");
    let server = aes128(Side::Server);
    assert_eq!(open(&server, 5, b"header", &sealed), Ok(b"payload".to_vec()));
    assert_eq!(open(&server, 4, b"header", &sealed), Err(()));
    assert_eq!(open(&server, 6, b"header", &sealed), Err(()));
    assert_eq!(open(&server, 5 + (1 << 32), b"header", &sealed), Err(()));
    assert_eq!(open(&server, 5 + (1 << 63), b"header", &sealed), Err(()));
}

#[test]
fn a_changed_packet_does_not_open() {
    let server = aes128(Side::Server);
    let sealed = seal(&aes128(Side::Client), 5, b"header", b"payload");
    assert_eq!(open(&server, 5, b"headeR", &sealed), Err(()));
    for i in 0..sealed.len() {
        let mut changed = sealed.clone();
        changed[i] ^= 1;
        assert_eq!(open(&server, 5, b"header", &changed), Err(()));
    }
    assert_eq!(open(&server, 5, b"header", &sealed[..sealed.len() - 1]), Err(()));
    assert_eq!(open(&server, 5, b"header", &sealed[..15]), Err(()));
    assert_eq!(open(&server, 5, b"header", &[]), Err(()));
    assert_eq!(open(&aes256(Side::Server), 5, b"header", &sealed), Err(()));
}

#[test]
fn the_packet_number_goes_into_the_nonce_in_full() {
    assert_eq!(
        seal(&initial(Side::Client), 0x0123456789abcdef, &INITIAL_HEADER, &INITIAL_PAYLOAD),
        CLIENT_INITIAL_SEALED_BIG_PN.to_vec()
    );
}

#[test]
fn nonce_is_iv_xor_packet_number() {
    let iv = [0u8; 12];
    assert_eq!(nonce(&iv, 0x0102030405060708), vec![0, 0, 0, 0, 1, 2, 3, 4, 5, 6, 7, 8]);
    let iv = [0xff, 0xee, 0xdd, 0xcc, 0xbb, 0xaa, 0x99, 0x88, 0x77, 0x66, 0x55, 0x44];
    assert_eq!(nonce(&iv, 0), iv.to_vec());
    assert_eq!(
        nonce(&iv, 0x0102030405060708),
        vec![0xff, 0xee, 0xdd, 0xcc, 0xba, 0xa8, 0x9a, 0x8c, 0x72, 0x60, 0x52, 0x4c]
    );
    assert_eq!(nonce(&iv, u64::MAX), vec![0xff, 0xee, 0xdd, 0xcc, 0x44, 0x55, 0x66, 0x77, 0x88, 0x99, 0xaa, 0xbb]);
}

#[test]
fn every_suite_seals_as_computed_by_hand() {
    assert_eq!(seal(&aes128(Side::Client), 42, &AES128_HEADER, &AES128_PAYLOAD), AES128_SEALED.to_vec());
    assert_eq!(seal(&aes256(Side::Client), 42, &AES256_HEADER, &AES256_PAYLOAD), AES256_SEALED.to_vec());
    assert_eq!(seal(&chacha(Side::Client), 42, &CHACHA_HEADER, &CHACHA_PAYLOAD), CHACHA_SEALED.to_vec());
    assert_eq!(open(&aes128(Side::Server), 42, &AES128_HEADER, &AES128_SEALED), Ok(AES128_PAYLOAD.to_vec()));
    assert_eq!(open(&aes256(Side::Server), 42, &AES256_HEADER, &AES256_SEALED), Ok(AES256_PAYLOAD.to_vec()));
    assert_eq!(open(&chacha(Side::Server), 42, &CHACHA_HEADER, &CHACHA_SEALED), Ok(CHACHA_PAYLOAD.to_vec()));
}

#[test]
fn each_side_sends_under_its_own_secret() {
    // The server's keys seal under the server's secret: what they seal is not
    // what the client's keys seal, and only the client opens it.
    let by_server = seal(&aes128(Side::Server), 42, &AES128_HEADER, &AES128_PAYLOAD);
    assert_ne!(by_server, AES128_SEALED.to_vec());
    assert_eq!(open(&aes128(Side::Client), 42, &AES128_HEADER, &by_server), Ok(AES128_PAYLOAD.to_vec()));
    assert_eq!(open(&aes128(Side::Server), 42, &AES128_HEADER, &by_server), Err(()));
}

#[test]
fn tag_and_key_lengths() {
    assert_eq!(aes128(Side::Client).tag_len(), 16);
    assert_eq!(chacha(Side::Client).tag_len(), 16);
    assert_eq!(AeadAlgorithm::Aes128Gcm.key_len(), 16);
    assert_eq!(AeadAlgorithm::Aes256Gcm.key_len(), 32);
    assert_eq!(AeadAlgorithm::ChaCha20Poly1305.key_len(), 32);
    assert_eq!(HashAlgorithm::Sha1.output_len(), 20);
    assert_eq!(HashAlgorithm::Sha256.output_len(), 32);
    assert_eq!(HashAlgorithm::Sha384.output_len(), 48);
    assert_eq!(HashAlgorithm::Sha512.output_len(), 64);
    assert_eq!(aes256(Side::Client).aead_algorithm(), AeadAlgorithm::Aes256Gcm);
    assert_eq!(aes256(Side::Client).hash_algorithm(), Some(HashAlgorithm::Sha384));
}

#[test]
fn header_protection_as_computed_by_hand() {
    let mut packet = INITIAL_HEADER.to_vec();
    packet.extend_from_slice(&CLIENT_INITIAL_SEALED);
    initial(Side::Client).header_keys().encrypt(18, &mut packet);
    assert_eq!(packet, CLIENT_INITIAL_PROTECTED.to_vec());

    let mut packet = INITIAL_HEADER.to_vec();
    packet.extend_from_slice(&SERVER_INITIAL_SEALED);
    initial(Side::Server).header_keys().encrypt(18, &mut packet);
    assert_eq!(packet, SERVER_INITIAL_PROTECTED.to_vec());

    for (keys, header, sealed, protected) in vec![
        (aes128(Side::Client), &AES128_HEADER[..], &AES128_SEALED[..], &AES128_PROTECTED[..]),
        (aes256(Side::Client), &AES256_HEADER[..], &AES256_SEALED[..], &AES256_PROTECTED[..]),
        (chacha(Side::Client), &CHACHA_HEADER[..], &CHACHA_SEALED[..], &CHACHA_PROTECTED[..]),
    ] {
        let mut packet = header.to_vec();
        packet.extend_from_slice(sealed);
        keys.header_keys().encrypt(9, &mut packet);
        assert_eq!(packet, protected.to_vec());
    }
}

#[test]
fn header_protection_comes_off_at_the_peer() {
    let mut packet = CLIENT_INITIAL_PROTECTED.to_vec();
    initial(Side::Server).header_keys().decrypt(18, &mut packet);
    assert_eq!(&packet[..22], &INITIAL_HEADER[..]);
    assert_eq!(&packet[22..], &CLIENT_INITIAL_SEALED[..]);

    for (sender, receiver) in vec![
        (aes128(Side::Client), aes128(Side::Server)),
        (aes256(Side::Server), aes256(Side::Client)),
        (chacha(Side::Client), chacha(Side::Server)),
    ] {
        for first in vec![0x40u8, 0x41, 0x42, 0x43, 0xc0, 0xc1, 0xc2, 0xc3, 0x7f, 0xff] {
            let mut packet = vec![first];
            packet.extend_from_slice(&[0x11; 8]);
            packet.extend_from_slice(&[0xde, 0xad, 0xbe, 0xef]);
            packet.extend_from_slice(&[0x77; 40]);
            let plain = packet.clone();
            sender.header_keys().encrypt(9, &mut packet);
            assert_ne!(packet, plain);
            assert_eq!(&packet[13..], &plain[13..]);
            assert_eq!(&packet[1..9], &plain[1..9]);
            assert_eq!(packet[0] & 0x80, plain[0] & 0x80);
            if first & 0x80 == 0 {
                assert_eq!(packet[0] & 0xe0, plain[0] & 0xe0);
            } else {
                assert_eq!(packet[0] & 0xf0, plain[0] & 0xf0);
            }
            let n = (first & 3) as usize + 1;
            assert_eq!(&packet[9 + n..], &plain[9 + n..]);
            receiver.header_keys().decrypt(9, &mut packet);
            assert_eq!(packet, plain);
        }
    }
}

#[test]
fn header_sample_is_sixteen_bytes() {
    assert_eq!(aes128(Side::Client).header_keys().sample_size(), 16);
    assert_eq!(chacha(Side::Client).header_keys().sample_size(), 16);
    // The shortest packet that can be protected: the sample ends with it.
    let mut packet = vec![0x43u8; 1 + 4 + 16];
    let plain = packet.clone();
    aes128(Side::Client).header_keys().encrypt(1, &mut packet);
    aes128(Side::Server).header_keys().decrypt(1, &mut packet);
    assert_eq!(packet, plain);
}

#[test]
fn hkdf_label_is_length_label_and_empty_context() {
    let mut want = vec![0x00, 0x10, 0x0e];
    want.extend_from_slice(b"tls13 quic key");
    want.push(0);
    assert_eq!(hkdf_label(Label::QuicKey, 16), want);
    let mut want = vec![0x00, 0x0c, 0x0d];
    want.extend_from_slice(b"tls13 quic iv");
    want.push(0);
    assert_eq!(hkdf_label(Label::QuicIv, 12), want);
    let mut want = vec![0x01, 0x02, 0x0f];
    want.extend_from_slice(b"tls13 client in");
    want.push(0);
    assert_eq!(hkdf_label(Label::ClientIn, 258), want);
    let mut want = vec![0xff, 0xff, 0x0d];
    want.extend_from_slice(b"tls13 quic ku");
    want.push(0);
    assert_eq!(hkdf_label(Label::QuicKu, 0xffff), want);
    assert_eq!(Label::ServerIn.to_vec(), b"server in".to_vec());
    assert_eq!(Label::QuicHp.to_vec(), b"quic hp".to_vec());
}

#[test]
fn expand_label_gives_the_keys_of_the_standard() {
    let client_initial = ring::hkdf::Prk::new_less_safe(
        HKDF_SHA256,
        &[
            0xc0, 0x0c, 0xf1, 0x51, 0xca, 0x5b, 0xe0, 0x75, 0xed, 0x0e, 0xbf, 0xb5, 0xc8, 0x03, 0x23, 0xc4,
            0x2d, 0x6b, 0x7d, 0xb6, 0x78, 0x81, 0x28, 0x9a, 0xf4, 0x00, 0x8f, 0x1f, 0x6c, 0x35, 0x7a, 0xea,
        ],
    );
    assert_eq!(
        hkdf_expand_label(&client_initial, Label::QuicKey, 16),
        vec![0x1f, 0x36, 0x96, 0x13, 0xdd, 0x76, 0xd5, 0x46, 0x77, 0x30, 0xef, 0xcb, 0xe3, 0xb1, 0xa2, 0x2d]
    );
    assert_eq!(
        hkdf_expand_label(&client_initial, Label::QuicIv, 12),
        vec![0xfa, 0x04, 0x4b, 0x2f, 0x42, 0xa3, 0xfd, 0x3b, 0x46, 0xfb, 0x25, 0x5c]
    );
    assert_eq!(
        hkdf_expand_label(&client_initial, Label::QuicHp, 16),
        vec![0x9f, 0x50, 0x44, 0x9e, 0x04, 0xa0, 0xe8, 0x10, 0x28, 0x3a, 0x1e, 0x99, 0x33, 0xad, 0xed, 0xd2]
    );
    assert_eq!(hkdf_expand_label(&client_initial, Label::QuicKey, 0), Vec::<u8>::new());
    assert_eq!(hkdf_expand_label(&client_initial, Label::QuicKey, 5100).len(), 5100);
}

#[test]
fn a_key_made_for_sha1_expands_up_to_its_limit() {
    let key = ring::hkdf::Prk::new_less_safe(ring::hkdf::HKDF_SHA1_FOR_LEGACY_USE_ONLY, &[7u8; 20]);
    assert_eq!(hkdf_expand_label(&key, Label::QuicKey, 5100).len(), 5100);
    let short = hkdf_expand_label(&key, Label::QuicKey, 16);
    assert_eq!(short.len(), 16);
    let other = ring::hkdf::Prk::new_less_safe(HKDF_SHA256, &[7u8; 20]);
    assert_ne!(hkdf_expand_label(&other, Label::QuicKey, 16), short);
}

#[test]
fn keys_without_a_known_hash_seal_all_the_same() {
    let keys = |side, hash| {
        Crypto::new(
            side,
            AeadAlgorithm::Aes128Gcm,
            hash,
            ring::hkdf::Prk::new_less_safe(HKDF_SHA256, &AES128_CLIENT_SECRET),
            ring::hkdf::Prk::new_less_safe(HKDF_SHA256, &AES128_SERVER_SECRET),
        )
    };
    let client = keys(Side::Client, None);
    assert_eq!(client.hash_algorithm(), None);
    assert_eq!(seal(&client, 42, &AES128_HEADER, &AES128_PAYLOAD), AES128_SEALED.to_vec());
    assert_eq!(open(&keys(Side::Server, None), 42, &AES128_HEADER, &AES128_SEALED), Ok(AES128_PAYLOAD.to_vec()));
}

#[test]
fn decrypt_shortens_by_the_tag_and_refuses_less_than_a_tag() {
    let server = aes128(Side::Server);
    let mut payload = bytes::BytesMut::from(&AES128_SEALED[..]);
    assert_eq!(server.decrypt(42, &AES128_HEADER, &mut payload), Ok(()));
    assert_eq!(payload.len() + server.tag_len(), AES128_SEALED.len());
    for len in 0..16 {
        let mut short = bytes::BytesMut::from(&AES128_SEALED[..len]);
        assert_eq!(server.decrypt(42, &AES128_HEADER, &mut short), Err(()));
        assert_eq!(short.len(), len);
    }
    // a tag alone seals nothing, and opens to nothing
    let sealed = seal(&aes128(Side::Client), 1, b"h", b"");
    assert_eq!(sealed.len(), 16);
    assert_eq!(open(&server, 1, b"h", &sealed), Ok(vec![]));
}

#[test]
fn hmac_signs_and_verifies() {
    let key = HmacSha256Key::new(&HMAC_KEY).unwrap();
    let tag = key.sign(&HMAC_DATA);
    assert_eq!(tag, HMAC_TAG.to_vec());
    assert_eq!(key.verify(&HMAC_DATA, &tag), Ok(()));
    assert_eq!(key.verify(b"retry tokem", &tag), Err(()));
    let mut wrong = tag.clone();
    wrong[31] ^= 0x80;
    assert_eq!(key.verify(&HMAC_DATA, &wrong), Err(()));
    assert_eq!(key.verify(&HMAC_DATA, &tag[..31]), Err(()));
    assert_eq!(key.verify(&HMAC_DATA, &[]), Err(()));
    let other = HmacSha256Key::new(&[7u8; 64]).unwrap();
    assert_eq!(other.verify(&HMAC_DATA, &tag), Err(()));
    assert_eq!(other.verify(&HMAC_DATA, &other.sign(&HMAC_DATA)), Ok(()));
}

#[test]
fn hmac_key_must_have_key_len_bytes() {
    assert_eq!(<HmacSha256Key as HmacKey>::KEY_LEN, 64);
    for len in vec![0usize, 1, 32, 63, 65, 128] {
        match HmacSha256Key::new(&vec![1u8; len]) {
            Err(e) => assert_eq!(e, ConfigError::IllegalValue("key length must be 64 bytes")),
            Ok(_) => panic!("a key of {} bytes was taken", len),
        }
    }
    assert!(HmacSha256Key::new(&[0u8; 64]).is_ok());
}

#[test]
fn connection_id_is_at_most_twenty_bytes() {
    assert_eq!(ConnectionId::new(&[]).unwrap().as_slice(), &[] as &[u8]);
    assert_eq!(ConnectionId::new(&[9; 20]).unwrap().as_slice(), &[9u8; 20][..]);
    assert_eq!(ConnectionId::new(&[9; 21]), None);
    assert_eq!(ConnectionId::new(&DCID).unwrap().as_slice(), &DCID[..]);
}
