use std::collections::HashMap;

use sign_file::error::SignError;
use sign_file::signing::{sign, sign_module, MODULE_SIGNING_FLAGS};
use sign_file::trailer::append_signature;
use sign_file::workflow::{Action, Command, Outcome, Workflow};

use openssl::asn1::Asn1Time;
use openssl::bn::BigNum;
use openssl::hash::MessageDigest;
use openssl::pkey::{PKey, Private};
use openssl::symm::Cipher;
use openssl::rsa::Rsa;
use openssl::x509::{X509Builder, X509NameBuilder};

/// Runs a workflow against an in-memory file map. `fail_on` names an action
/// (by its position) that is reported as failed. Returns the result, the
/// actions issued and the signatures the signer produced.
fn drive<F>(
    command: Command,
    files: &mut HashMap<String, Vec<u8>>,
    mut signer: F,
    fail_on: Option<usize>,
) -> (Result<(), SignError>, Vec<String>, Vec<Vec<u8>>)
where
    F: FnMut(&[u8], Option<&[u8]>, &[u8], &[u8]) -> Result<Vec<u8>, SignError>,
{
    let (mut w, mut action) = Workflow::start(command);
    let mut log = Vec::new();
    let mut sigs = Vec::new();
    for n in 0..32 {
        let fail = fail_on == Some(n);
        let outcome = match action {
            Action::Finish { result } => {
                assert!(w.is_finished());
                return (result, log, sigs);
            }
            Action::Read { path } => {
                log.push(format!("read {}", path));
                match files.get(&path) {
                    Some(b) if !fail => Outcome::Bytes(b.clone()),
                    _ => Outcome::Failed,
                }
            }
            Action::Sign { key, passphrase, cert, content } => {
                log.push("sign".to_string());
                match signer(&key, passphrase.as_deref(), &cert, &content) {
                    Ok(s) if !fail => {
                        sigs.push(s.clone());
                        Outcome::Bytes(s)
                    }
                    _ => Outcome::Failed,
                }
            }
            Action::Write { path, bytes } => {
                log.push(format!("write {}", path));
                if fail {
                    Outcome::Failed
                } else {
                    files.insert(path, bytes);
                    Outcome::Done
                }
            }
            Action::Rename { from, to } => {
                log.push(format!("rename {} {}", from, to));
                match files.remove(&from) {
                    Some(b) if !fail => {
                        files.insert(to, b);
                        Outcome::Done
                    }
                    Some(b) => {
                        files.insert(from, b);
                        Outcome::Failed
                    }
                    None => Outcome::Failed,
                }
            }
        };
        action = w.step(outcome);
    }
    panic!("workflow did not finish");
}

fn fake_signer(_key: &[u8], _pass: Option<&[u8]>, _cert: &[u8], content: &[u8]) -> Result<Vec<u8>, SignError> {
    Ok(vec![0x30, content.len() as u8, 0xee])
}

fn key_and_cert() -> (Vec<u8>, Vec<u8>) {
    let (pkey, cert) = key_pair();
    (pkey.private_key_to_pem_pkcs8().unwrap(), cert)
}

fn key_pair() -> (PKey<Private>, Vec<u8>) {
    let pkey = PKey::from_rsa(Rsa::generate(2048).unwrap()).unwrap();
    let mut name = X509NameBuilder::new().unwrap();
    name.append_entry_by_text("CN", "module signing key").unwrap();
    let name = name.build();
    let mut b = X509Builder::new().unwrap();
    b.set_version(2).unwrap();
    b.set_subject_name(&name).unwrap();
    b.set_issuer_name(&name).unwrap();
    b.set_pubkey(&pkey).unwrap();
    b.set_not_before(&Asn1Time::days_from_now(0).unwrap()).unwrap();
    b.set_not_after(&Asn1Time::days_from_now(30).unwrap()).unwrap();
    let serial = BigNum::from_u32(1).unwrap().to_asn1_integer().unwrap();
    b.set_serial_number(&serial).unwrap();
    b.sign(&pkey, MessageDigest::sha256()).unwrap();
    let cert = b.build().to_der().unwrap();
    (pkey, cert)
}

fn files_with(key: &[u8], cert: &[u8], module: &[u8]) -> HashMap<String, Vec<u8>> {
    let mut f = HashMap::new();
    f.insert("k.pem".to_string(), key.to_vec());
    f.insert("c.der".to_string(), cert.to_vec());
    f.insert("m.ko".to_string(), module.to_vec());
    f
}

fn produce() -> Command {
    Command::Produce {
        key: "k.pem".into(),
        cert: "c.der".into(),
        module: "m.ko".into(),
        passphrase: None,
    }
}

fn detach() -> Command {
    Command::Detach {
        key: "k.pem".into(),
        cert: "c.der".into(),
        module: "m.ko".into(),
        passphrase: None,
    }
}

#[test]
fn signing_flags_are_the_kernel_set() {
    assert_eq!(MODULE_SIGNING_FLAGS, 0x40 | 0x2 | 0x80 | 0x200);
}

#[test]
fn produce_with_openssl_writes_p7s_and_signed_module() {
    let (key, cert) = key_and_cert();
    let module = b"\x7fELF\x00\x01 arbitrary module bytes \r\n".to_vec();
    let mut files = files_with(&key, &cert, &module);
    let (r, log, sigs) = drive(produce(), &mut files, |k, p, c, m| sign_module(k, p, c, m), None);
    assert_eq!(r, Ok(()));
    assert_eq!(sigs.len(), 1);
    let sig = &sigs[0];
    assert_eq!(sig[0], 0x30);
    assert_eq!(files.get("m.ko.p7s"), Some(sig));
    let signed = files.get("m.ko").unwrap();
    assert_eq!(signed, &append_signature(&module, sig).unwrap());
    let rec = &signed[signed.len() - 40..signed.len() - 28];
    assert_eq!(u32::from_be_bytes([rec[8], rec[9], rec[10], rec[11]]) as usize, sig.len());
    assert!(!files.contains_key("m.ko.~signed~"));
    assert_eq!(
        log,
        vec![
            "read k.pem",
            "read c.der",
            "read m.ko",
            "sign",
            "write m.ko.p7s",
            "write m.ko.~signed~",
            "rename m.ko.~signed~ m.ko"
        ]
    );
}

#[test]
fn detach_with_openssl_leaves_module_unchanged() {
    let (key, cert) = key_and_cert();
    let module = vec![1u8, 2, 3, 4, 5];
    let mut files = files_with(&key, &cert, &module);
    let (r, log, sigs) = drive(detach(), &mut files, |k, p, c, m| sign_module(k, p, c, m), None);
    assert_eq!(r, Ok(()));
    assert_eq!(files.get("m.ko"), Some(&module));
    assert_eq!(files.get("m.ko.p7s"), Some(&sigs[0]));
    assert_eq!(files.len(), 4);
    assert!(!log.iter().any(|l| l.starts_with("rename")));
}

#[test]
fn raw_appends_blob_verbatim_without_signing() {
    let mut files = HashMap::new();
    files.insert("sig.bin".to_string(), vec![0xde, 0xad, 0xbe, 0xef, 0x00, 0x01, 0x02]);
    files.insert("m.ko".to_string(), b"module".to_vec());
    let mut signed_called = false;
    let (r, log, _) = drive(
        Command::Raw { raw: "sig.bin".into(), module: "m.ko".into() },
        &mut files,
        |_, _, _, _| {
            signed_called = true;
            Err(SignError::Crypto)
        },
        None,
    );
    assert_eq!(r, Ok(()));
    assert!(!signed_called);
    let mut expected = b"module".to_vec();
    expected.extend_from_slice(&[0xde, 0xad, 0xbe, 0xef, 0x00, 0x01, 0x02]);
    expected.extend_from_slice(&[0, 0, 2, 0, 0, 0, 0, 0, 0, 0, 0, 7]);
    expected.extend_from_slice(b"~Module signature appended~\n");
    assert_eq!(files.get("m.ko"), Some(&expected));
    assert!(!files.contains_key("m.ko.p7s"));
    assert_eq!(log, vec!["read sig.bin", "read m.ko", "write m.ko.~signed~", "rename m.ko.~signed~ m.ko"]);
}

#[test]
fn unreadable_key_aborts_before_any_write() {
    let mut files = HashMap::new();
    files.insert("c.der".to_string(), vec![1]);
    files.insert("m.ko".to_string(), vec![2]);
    let (r, log, _) = drive(produce(), &mut files, fake_signer, None);
    assert_eq!(r, Err(SignError::Input));
    assert_eq!(log, vec!["read k.pem"]);
    assert_eq!(files.len(), 2);
    assert_eq!(files.get("m.ko"), Some(&vec![2]));
}

#[test]
fn failure_before_rename_leaves_module_untouched() {
    let module = vec![9u8; 10];
    let mut files = files_with(b"key", b"cert", &module);
    // actions: 0 read key, 1 read cert, 2 read module, 3 sign, 4 write p7s,
    // 5 write staged, 6 rename
    let (r, _, _) = drive(produce(), &mut files, fake_signer, Some(6));
    assert_eq!(r, Err(SignError::Io));
    assert_eq!(files.get("m.ko"), Some(&module));
    assert!(files.contains_key("m.ko.~signed~"));
    assert!(files.contains_key("m.ko.p7s"));
}

#[test]
fn failed_staged_write_is_an_io_error() {
    let module = vec![9u8; 3];
    let mut files = files_with(b"key", b"cert", &module);
    let (r, log, _) = drive(produce(), &mut files, fake_signer, Some(5));
    assert_eq!(r, Err(SignError::Io));
    assert_eq!(files.get("m.ko"), Some(&module));
    assert!(!log.iter().any(|l| l.starts_with("rename")));
}

#[test]
fn failed_signing_is_a_crypto_error() {
    let mut files = files_with(b"key", b"cert", b"m");
    let (r, log, _) = drive(produce(), &mut files, |_, _, _, _| Err(SignError::Crypto), None);
    assert_eq!(r, Err(SignError::Crypto));
    assert_eq!(log.last().unwrap(), "sign");
    assert_eq!(files.len(), 3);
}

#[test]
fn produce_with_fake_signer_uses_its_output() {
    let mut files = files_with(b"key", b"cert", b"abcd");
    let (r, _, _) = drive(produce(), &mut files, fake_signer, None);
    assert_eq!(r, Ok(()));
    assert_eq!(files.get("m.ko.p7s"), Some(&vec![0x30, 4, 0xee]));
    assert_eq!(files.get("m.ko"), Some(&append_signature(b"abcd", &[0x30, 4, 0xee]).unwrap()));
}

#[test]
fn malformed_key_or_certificate_is_a_crypto_error() {
    let (key, cert) = key_and_cert();
    assert_eq!(sign_module(b"not a key", None, &cert, b"m"), Err(SignError::Crypto));
    assert_eq!(sign_module(&key, None, b"not a cert", b"m"), Err(SignError::Crypto));
    assert!(sign(b"not a key", &cert, b"m").is_err());
}

#[test]
fn openssl_signature_is_detached_der() {
    let (key, cert) = key_and_cert();
    let content = vec![0x55u8; 4096];
    let der = sign_module(&key, None, &cert, &content).unwrap();
    assert_eq!(der[0], 0x30);
    // detached: the content is not embedded
    assert!(der.len() < content.len());
    // no certificates: the certificate's DER does not appear in it
    assert!(!der.windows(cert.len()).any(|w| w == cert.as_slice()));
}

#[test]
fn encrypted_key_needs_the_right_passphrase() {
    let (pkey, cert) = key_pair();
    let pem = pkey.private_key_to_pem_pkcs8_passphrase(Cipher::aes_128_cbc(), b"pin").unwrap();
    let der = sign_module(&pem, Some(b"pin"), &cert, b"module").unwrap();
    assert_eq!(der[0], 0x30);
    assert_eq!(sign_module(&pem, Some(b"wrong"), &cert, b"module"), Err(SignError::Crypto));
    assert_eq!(sign_module(&pem, Some(b"p\0n"), &cert, b"module"), Err(SignError::Crypto));
}

#[test]
fn detach_hands_the_passphrase_to_the_signer() {
    let (pkey, cert) = key_pair();
    let pem = pkey.private_key_to_pem_pkcs8_passphrase(Cipher::aes_128_cbc(), b"pin").unwrap();
    let mut files = files_with(&pem, &cert, b"module");
    let command = Command::Detach {
        key: "k.pem".into(),
        cert: "c.der".into(),
        module: "m.ko".into(),
        passphrase: Some(b"pin".to_vec()),
    };
    let (r, _, sigs) = drive(command, &mut files, |k, p, c, m| sign_module(k, p, c, m), None);
    assert_eq!(r, Ok(()));
    assert_eq!(files.get("m.ko.p7s"), Some(&sigs[0]));
    assert_eq!(files.get("m.ko"), Some(&b"module".to_vec()));
}
