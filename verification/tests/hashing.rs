use trace_stream_rs::common::biz_code::BizCode;
use trace_stream_rs::libs_common::hash_utils::{bcrypt_hash, bcrypt_verify, md5_hex, to_hex_lower};

#[test]
fn test_md5() {
    let data = "sdtL.TraceSer-Ver-2021-08-01T00:00:00Z";
    let digest = md5_hex(data);
    println!("MD5 digest: {}", digest);
    assert_eq!(digest, format!("{:x}", md5::compute(data)));
    assert_eq!(digest.len(), 32);
}

#[test]
fn md5_known_values() {
    assert_eq!(md5_hex(""), "d41d8cd98f00b204e9800998ecf8427e");
    assert_eq!(md5_hex("abc"), "900150983cd24fb0d6963f7d28e17f72");
}

#[test]
fn hex_encoding() {
    assert_eq!(to_hex_lower(&[0x00, 0x0f, 0xa5, 0xff]), "000fa5ff");
    assert_eq!(to_hex_lower(&[]), "");
}

#[test]
fn test_bcrypt_hash() {
    let val = bcrypt_hash("4cb8304e3eab0d86044fcf9dd07f7cd5").ok().unwrap();
    println!("bcrypt hash: {}", val);
    assert_eq!(val.len(), 60);
    assert!(bcrypt_verify("4cb8304e3eab0d86044fcf9dd07f7cd5", &val).ok().unwrap());
}

#[test]
fn test_hash() {
    let password = "mysecretpassword";
    match bcrypt_hash(password) {
        Ok(hashed_password) => {
            println!("hashed password: {}", hashed_password);
            assert!(bcrypt_verify(password, &hashed_password).ok().unwrap());
            assert!(!bcrypt_verify("another", &hashed_password).ok().unwrap());
        }
        Err(e) => panic!("hashing failed: {}", e.to_string()),
    }
}

#[test]
fn can_verify_hash_generated_from_some_online_tool() {
    let hash = "$2a$04$UuTkLRZZ6QofpDOlMz32MuuxEHA43WOemOYHPz6.SjsVsyO1tDU96";
    assert!(bcrypt_verify("password", hash).ok().unwrap());
}

#[test]
fn unreadable_hash_is_a_bcrypt_error() {
    let err = bcrypt_verify("password", "not a hash").err().unwrap();
    assert_eq!(err.biz_code, BizCode::BCRYPT_ERROR);
    assert!(err.to_string().starts_with("Bcrypt error: "));
}
