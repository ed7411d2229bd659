//! Assembly of one identification report from the probes' results.

use vstd::prelude::*;

use crate::digest::{
    fuzzy_field, fuzzy_field_of, hex_of, human_label, human_label_of, md5_hex, md5_of, opt_view,
    sha1_hex, sha1_of, sha256_digest, sha256_of, sha384_hex, sha384_of, sniff_type,
    sniffed_mime, type_label_of, MAX_INPUT_LEN,
};
use crate::size::{format_size, size_text};
use crate::text::{candidate_summary, candidate_summary_of, probe_type_of, probe_type_text};

verus! {

/// What the signature-container lookup on a Windows executable found.
#[derive(Clone, Copy, Debug, PartialEq, Eq, Structural)]
pub enum SignatureLookup {
    /// A signature structure was found.
    Signed,
    /// The lookup completed and found no signature structure.
    Unsigned,
    /// The lookup itself failed (malformed executable, read error).
    Failed,
}

/// Why an analysis produced no report.
#[derive(Clone, Copy, Debug, PartialEq, Eq, Structural)]
pub enum AnalysisError {
    /// The signature lookup on a Windows executable failed.
    SignatureLookupFailed,
}

/// The raw standard output of each delegated probe; `None` where the probe
/// is disabled, could not be started or failed.
pub struct ProbeOutputs {
    pub file_command: Option<String>,
    pub trid: Option<String>,
    pub exiftool: Option<String>,
    pub capa: Option<String>,
    pub pecli: Option<String>,
}

/// The report on one artifact.
pub struct FileInfo {
    pub filesize: String,
    pub filetype_infer: String,
    pub filetype_command: String,
    pub filetype_trid: String,
    pub md5: String,
    pub sha256: String,
    pub sha1: String,
    pub sha384: String,
    pub humanhash: String,
    pub fuzzy_hash: String,
    pub exiftool_command: String,
    pub capa_command: String,
    pub pecli_command: String,
}

pub open spec fn pe_mime() -> Seq<char> {
    "application/vnd.microsoft.portable-executable"@
}

pub open spec fn signed_suffix() -> Seq<char> {
    " (SIGNED PE FILE)"@
}

pub open spec fn unsigned_suffix() -> Seq<char> {
    " (NOT SIGNED PE FILE!!!)"@
}

/// Whether the signature-sniffing probe reports a Windows executable.
pub open spec fn is_pe_content(b: Seq<u8>) -> bool {
    sniffed_mime(b) == Some(pe_mime())
}

pub open spec fn ends_with(s: Seq<char>, t: Seq<char>) -> bool {
    t.len() <= s.len() && s.subrange(s.len() - t.len(), s.len() as int) == t
}

/// The text of an optional probe output: the output, or empty.
pub open spec fn text_or_empty(o: Option<String>) -> Seq<char> {
    match o {
        Some(t) => t@,
        None => Seq::empty(),
    }
}

/// What a delegated path-probe contributes: its type text, or empty.
pub open spec fn command_type_of(o: Option<String>, path: Seq<char>) -> Seq<char> {
    match o {
        Some(t) => probe_type_of(t@, path),
        None => Seq::empty(),
    }
}

pub open spec fn trid_field_of(o: Option<String>) -> Seq<char> {
    match o {
        Some(t) => candidate_summary_of(t@),
        None => Seq::empty(),
    }
}

/// The primary type label after the executable sub-pipeline.
pub open spec fn annotated_type_of(b: Seq<u8>, sig: SignatureLookup) -> Seq<char> {
    let base = type_label_of(sniffed_mime(b));
    if is_pe_content(b) {
        if sig == SignatureLookup::Signed {
            base + signed_suffix()
        } else {
            base + unsigned_suffix()
        }
    } else {
        base
    }
}

impl FileInfo {
    /// The fields that the content alone decides: size, digests, label and
    /// sniffed type.
    pub open spec fn content_fields_describe(&self, b: Seq<u8>) -> bool {
        &&& self.filesize@ == size_text(b.len())
        &&& self.md5@ == hex_of(md5_of(b))
        &&& self.sha256@ == hex_of(sha256_of(b))
        &&& self.sha1@ == hex_of(sha1_of(b))
        &&& self.sha384@ == hex_of(sha384_of(b))
        &&& self.humanhash@ == human_label_of(b)
    }

    /// `self` is the report on content `b`, stored at `path`, with the given
    /// probe results.
    pub open spec fn describes(
        &self,
        b: Seq<u8>,
        path: Seq<char>,
        probes: ProbeOutputs,
        fuzzy: Option<Seq<char>>,
        sig: SignatureLookup,
    ) -> bool {
        &&& self.content_fields_describe(b)
        &&& self.filetype_infer@ == annotated_type_of(b, sig)
        &&& self.fuzzy_hash@ == fuzzy_field_of(fuzzy)
        &&& self.filetype_command@ == command_type_of(probes.file_command, path)
        &&& self.filetype_trid@ == trid_field_of(probes.trid)
        &&& self.exiftool_command@ == text_or_empty(probes.exiftool)
        &&& self.capa_command@ == (if is_pe_content(b) {
            text_or_empty(probes.capa)
        } else {
            Seq::empty()
        })
        &&& self.pecli_command@ == (if is_pe_content(b) {
            text_or_empty(probes.pecli)
        } else {
            Seq::empty()
        })
    }
}

/// Whether a type label is the Windows-executable type.
pub fn is_pe_type(label: &str) -> (r: bool)
    ensures
        r == (label@ == pe_mime()),
{
    let t = "application/vnd.microsoft.portable-executable";
    proof {
        reveal_strlit("application/vnd.microsoft.portable-executable");
        assert(t@ == pe_mime());
    }
    let n = label.unicode_len();
    if n != t.unicode_len() {
        return false;
    }
    let mut i: usize = 0;
    while i < n
        invariant
            i <= n == label@.len() == t@.len(),
            t@ == pe_mime(),
            forall|k: int| 0 <= k < i ==> label@[k] == t@[k],
        decreases n - i,
    {
        if label.get_char(i) != t.get_char(i) {
            assert(label@[i as int] != t@[i as int]);
            return false;
        }
        i = i + 1;
    }
    assert(label@ =~= t@);
    true
}

/// Whether the executable sub-pipeline (signature lookup and the
/// executable-only probes) applies to this content.
pub fn needs_pe_pipeline(bytes: &[u8]) -> (r: bool)
    ensures
        r == is_pe_content(bytes@),
{
    let t = sniff_type(bytes);
    proof {
        reveal_strlit("application/vnd.microsoft.portable-executable");
        reveal_strlit("unknown");
        if sniffed_mime(bytes@) is None {
            assert(t@.len() != pe_mime().len());
        }
    }
    is_pe_type(t.as_str())
}

/// Appends the signature annotation to a type label.
pub fn annotate_signature(label: String, signed: bool) -> (r: String)
    ensures
        r@ == label@ + (if signed {
            signed_suffix()
        } else {
            unsigned_suffix()
        }),
{
    let mut r = label;
    if signed {
        r.append(" (SIGNED PE FILE)");
    } else {
        r.append(" (NOT SIGNED PE FILE!!!)");
    }
    r
}

fn text_or_blank(o: &Option<String>) -> (r: String)
    ensures
        r@ == text_or_empty(*o),
{
    match o {
        Some(t) => t.clone(),
        None => String::new(),
    }
}

/// Builds the report on `bytes`, stored at `path` (the path that the
/// delegated path-probes were run on), from the outputs of those probes,
/// the fuzzy digest (`None` where it could not be made) and the signature
/// lookup. The executable-only fields and the annotation are filled only
/// when the sniffed type is the Windows-executable type; a failed signature
/// lookup on such content is an error.
pub fn assemble_report(
    bytes: &[u8],
    path: &str,
    probes: &ProbeOutputs,
    fuzzy: Option<String>,
    sig: SignatureLookup,
) -> (r: Result<FileInfo, AnalysisError>)
    requires
        bytes@.len() <= MAX_INPUT_LEN as nat,
    ensures
        r is Err <==> (is_pe_content(bytes@) && sig == SignatureLookup::Failed),
        r matches Err(e) ==> e == AnalysisError::SignatureLookupFailed,
        r matches Ok(info) ==> info.describes(bytes@, path@, *probes, opt_view(fuzzy), sig),
{
    let mut filetype_infer = sniff_type(bytes);
    let pe = needs_pe_pipeline(bytes);
    let ghost fz = opt_view(fuzzy);
    let filesize = format_size(bytes.len() as u64);
    let md5 = md5_hex(bytes);
    let sha256 = sha256_digest(bytes);
    let sha1 = sha1_hex(bytes);
    let sha384 = sha384_hex(bytes);
    let humanhash = human_label(bytes);
    let fuzzy_hash = fuzzy_field(fuzzy);
    let filetype_command = match &probes.file_command {
        Some(t) => probe_type_text(t.as_str(), path),
        None => String::new(),
    };
    let filetype_trid = match &probes.trid {
        Some(t) => candidate_summary(t.as_str()),
        None => String::new(),
    };
    let exiftool_command = text_or_blank(&probes.exiftool);
    let mut capa_command = String::new();
    let mut pecli_command = String::new();
    if pe {
        match sig {
            SignatureLookup::Failed => {
                return Err(AnalysisError::SignatureLookupFailed);
            },
            SignatureLookup::Signed => {
                filetype_infer = annotate_signature(filetype_infer, true);
            },
            SignatureLookup::Unsigned => {
                filetype_infer = annotate_signature(filetype_infer, false);
            },
        }
        capa_command = text_or_blank(&probes.capa);
        pecli_command = text_or_blank(&probes.pecli);
    }
    let info = FileInfo {
        filesize,
        filetype_infer,
        filetype_command,
        filetype_trid,
        md5,
        sha256,
        sha1,
        sha384,
        humanhash,
        fuzzy_hash,
        exiftool_command,
        capa_command,
        pecli_command,
    };
    Ok(info)
}

/// Repeated analyses of the same content give the same size, digests,
/// human-readable label and sniffed type, whatever the probes returned.
pub proof fn law_deterministic(
    a: Seq<u8>,
    b: Seq<u8>,
    path_a: Seq<char>,
    path_b: Seq<char>,
    pa: ProbeOutputs,
    pb: ProbeOutputs,
    fa: Option<Seq<char>>,
    fb: Option<Seq<char>>,
    sa: SignatureLookup,
    sb: SignatureLookup,
    ra: FileInfo,
    rb: FileInfo,
)
    requires
        a == b,
        ra.describes(a, path_a, pa, fa, sa),
        rb.describes(b, path_b, pb, fb, sb),
    ensures
        ra.filesize@ == rb.filesize@,
        ra.md5@ == rb.md5@,
        ra.sha256@ == rb.sha256@,
        ra.sha1@ == rb.sha1@,
        ra.sha384@ == rb.sha384@,
        ra.humanhash@ == rb.humanhash@,
        sa == sb ==> ra.filetype_infer@ == rb.filetype_infer@,
        type_label_of(sniffed_mime(a)).is_prefix_of(ra.filetype_infer@),
        type_label_of(sniffed_mime(b)).is_prefix_of(rb.filetype_infer@),
{
    let base = type_label_of(sniffed_mime(a));
    assert(base.is_prefix_of(base + signed_suffix()));
    assert(base.is_prefix_of(base + unsigned_suffix()));
    assert(base.is_prefix_of(base));
}

/// Content whose sniffed type is not the Windows-executable type gets no
/// executable-only output and no signature annotation.
pub proof fn law_pe_gating(
    b: Seq<u8>,
    path: Seq<char>,
    probes: ProbeOutputs,
    fuzzy: Option<Seq<char>>,
    sig: SignatureLookup,
    r: FileInfo,
)
    requires
        !is_pe_content(b),
        r.describes(b, path, probes, fuzzy, sig),
    ensures
        r.capa_command@.len() == 0,
        r.pecli_command@.len() == 0,
        r.filetype_infer@ == type_label_of(sniffed_mime(b)),
{
}

/// On a Windows executable the type label ends with the signed annotation
/// when a signature was found, and with the unsigned one when none was.
pub proof fn law_pe_annotation(
    b: Seq<u8>,
    path: Seq<char>,
    probes: ProbeOutputs,
    fuzzy: Option<Seq<char>>,
    sig: SignatureLookup,
    r: FileInfo,
)
    requires
        is_pe_content(b),
        r.describes(b, path, probes, fuzzy, sig),
    ensures
        sig == SignatureLookup::Signed ==> ends_with(r.filetype_infer@, signed_suffix()),
        sig != SignatureLookup::Signed ==> ends_with(r.filetype_infer@, unsigned_suffix()),
{
    let t = r.filetype_infer@;
    if sig == SignatureLookup::Signed {
        assert(t.subrange(t.len() - signed_suffix().len(), t.len() as int) =~= signed_suffix());
    } else {
        assert(t.subrange(t.len() - unsigned_suffix().len(), t.len() as int) =~= unsigned_suffix());
    }
}

/// Whatever any delegated probe or the fuzzy digest returned, the size,
/// digests, label and sniffed type of the report stay the same.
pub proof fn law_probe_failure_isolated(
    b: Seq<u8>,
    path: Seq<char>,
    pa: ProbeOutputs,
    pb: ProbeOutputs,
    fa: Option<Seq<char>>,
    fb: Option<Seq<char>>,
    sig: SignatureLookup,
    ra: FileInfo,
    rb: FileInfo,
)
    requires
        ra.describes(b, path, pa, fa, sig),
        rb.describes(b, path, pb, fb, sig),
    ensures
        ra.filesize@ == rb.filesize@,
        ra.md5@ == rb.md5@,
        ra.sha256@ == rb.sha256@,
        ra.sha1@ == rb.sha1@,
        ra.sha384@ == rb.sha384@,
        ra.humanhash@ == rb.humanhash@,
        ra.filetype_infer@ == rb.filetype_infer@,
{
}

} // verus!
