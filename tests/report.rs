use filescope::digest::{md5_hex, sha256_digest};
use filescope::report::{
    annotate_signature, assemble_report, is_pe_type, needs_pe_pipeline, AnalysisError,
    ProbeOutputs, SignatureLookup,
};

fn all_probes() -> ProbeOutputs {
    ProbeOutputs {
        file_command: Some("/up/f: data\n".to_string()),
        trid: Some("x\n 60.0% (.EXE) Generic\n".to_string()),
        exiftool: Some("File Name : f\n".to_string()),
        capa: Some("capabilities".to_string()),
        pecli: Some("headers".to_string()),
    }
}

fn no_probes() -> ProbeOutputs {
    ProbeOutputs { file_command: None, trid: None, exiftool: None, capa: None, pecli: None }
}

fn pe_bytes() -> Vec<u8> {
    let mut b = vec![0x4Du8, 0x5A];
    b.extend_from_slice(&[0u8; 62]);
    b
}

#[test]
fn non_pe_content_gets_no_pe_fields() {
    let bytes = b"just some text".to_vec();
    assert!(!needs_pe_pipeline(&bytes));
    let info = assemble_report(&bytes, "/up/f", &all_probes(), None, SignatureLookup::Signed).unwrap();
    assert_eq!(info.filetype_infer, "unknown");
    assert_eq!(info.capa_command, "");
    assert_eq!(info.pecli_command, "");
    assert_eq!(info.filetype_command, "data");
    assert_eq!(info.filetype_trid, "60.0% (.EXE) Generic");
    assert_eq!(info.exiftool_command, "File Name : f\n");
    assert_eq!(info.fuzzy_hash, "N/A");
    assert_eq!(info.filesize, "14.00 B");
    assert_eq!(info.md5, md5_hex(&bytes));
    assert_eq!(info.sha256, sha256_digest(&bytes));
}

#[test]
fn signed_pe_is_annotated() {
    let bytes = pe_bytes();
    assert!(needs_pe_pipeline(&bytes));
    let info = assemble_report(&bytes, "/up/f", &all_probes(), None, SignatureLookup::Signed).unwrap();
    assert_eq!(
        info.filetype_infer,
        "application/vnd.microsoft.portable-executable (SIGNED PE FILE)"
    );
    assert_eq!(info.capa_command, "capabilities");
    assert_eq!(info.pecli_command, "headers");
}

#[test]
fn unsigned_pe_is_annotated() {
    let bytes = pe_bytes();
    let info = assemble_report(&bytes, "/up/f", &all_probes(), None, SignatureLookup::Unsigned).unwrap();
    assert!(info.filetype_infer.ends_with("(NOT SIGNED PE FILE!!!)"));
}

#[test]
fn failed_signature_lookup_on_pe_is_an_error() {
    let r = assemble_report(&pe_bytes(), "/up/f", &all_probes(), None, SignatureLookup::Failed);
    assert!(matches!(r, Err(AnalysisError::SignatureLookupFailed)));
    let ok = assemble_report(b"text", "/up/f", &all_probes(), None, SignatureLookup::Failed);
    assert!(ok.is_ok());
}

#[test]
fn missing_probes_leave_content_fields_alone() {
    let bytes = pe_bytes();
    let a = assemble_report(&bytes, "/up/f", &all_probes(), Some("3:a:b".to_string()), SignatureLookup::Signed)
        .unwrap();
    let b = assemble_report(&bytes, "/up/f", &no_probes(), None, SignatureLookup::Signed).unwrap();
    assert_eq!(a.filesize, b.filesize);
    assert_eq!(a.md5, b.md5);
    assert_eq!(a.sha1, b.sha1);
    assert_eq!(a.sha256, b.sha256);
    assert_eq!(a.sha384, b.sha384);
    assert_eq!(a.humanhash, b.humanhash);
    assert_eq!(a.filetype_infer, b.filetype_infer);
    assert_eq!(b.filetype_command, "");
    assert_eq!(b.capa_command, "");
    assert_eq!(a.fuzzy_hash, "3:a:b");
}

#[test]
fn pe_type_and_annotation_helpers() {
    assert!(is_pe_type("application/vnd.microsoft.portable-executable"));
    assert!(!is_pe_type("application/pdf"));
    assert_eq!(annotate_signature("t".to_string(), true), "t (SIGNED PE FILE)");
    assert_eq!(annotate_signature("t".to_string(), false), "t (NOT SIGNED PE FILE!!!)");
}

#[test]
fn file_command_type_uses_the_stored_path() {
    let mut probes = no_probes();
    probes.file_command = Some("/up/a:b: ASCII text\n".to_string());
    let info = assemble_report(b"hello", "/up/a:b", &probes, None, SignatureLookup::Unsigned).unwrap();
    assert_eq!(info.filetype_command, "ASCII text");
}
