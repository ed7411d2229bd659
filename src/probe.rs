//! Which delegated probes run on an artifact, how each is invoked, and where
//! its output is recorded.

use vstd::prelude::*;

use crate::report::ProbeOutputs;

verus! {

/// A delegated probe: an external tool run on the artifact's path.
#[derive(Clone, Copy, Debug, PartialEq, Eq, Structural)]
pub enum Probe {
    /// The operating system's `file` command.
    FileCommand,
    /// The multi-candidate identifier.
    Trid,
    /// The metadata extractor.
    Exiftool,
    /// The capability extractor, for Windows executables only.
    Capa,
    /// The executable-metadata extractor, for Windows executables only.
    Pecli,
}

/// Which delegated probes a deployment enables.
#[derive(Clone, Copy, Debug, PartialEq, Eq, Structural)]
pub struct ProbeConfig {
    pub file_command: bool,
    pub trid: bool,
    pub exiftool: bool,
    pub capa: bool,
    pub pecli: bool,
}

impl ProbeConfig {
    /// Every probe enabled.
    pub fn all() -> (r: ProbeConfig)
        ensures
            r.file_command && r.trid && r.exiftool && r.capa && r.pecli,
    {
        ProbeConfig { file_command: true, trid: true, exiftool: true, capa: true, pecli: true }
    }
}

pub open spec fn is_pe_only(p: Probe) -> bool {
    p == Probe::Capa || p == Probe::Pecli
}

pub open spec fn opt_probe(on: bool, p: Probe) -> Seq<Probe> {
    if on {
        seq![p]
    } else {
        Seq::empty()
    }
}

/// The enabled probes in the fixed order; the executable-only ones only
/// when the artifact is a Windows executable.
pub open spec fn plan_of(c: ProbeConfig, pe: bool) -> Seq<Probe> {
    opt_probe(c.file_command, Probe::FileCommand) + opt_probe(c.trid, Probe::Trid) + opt_probe(
        c.exiftool,
        Probe::Exiftool,
    ) + opt_probe(pe && c.capa, Probe::Capa) + opt_probe(pe && c.pecli, Probe::Pecli)
}

fn push_if(v: &mut Vec<Probe>, on: bool, p: Probe)
    ensures
        final(v)@ == old(v)@ + opt_probe(on, p),
{
    if on {
        v.push(p);
    }
    assert(final(v)@ =~= old(v)@ + opt_probe(on, p));
}

/// The probes to run, in order, for a configuration and whether the
/// artifact is a Windows executable.
pub fn planned_probes(config: &ProbeConfig, pe: bool) -> (r: Vec<Probe>)
    ensures
        r@ == plan_of(*config, pe),
{
    let mut v: Vec<Probe> = Vec::new();
    push_if(&mut v, config.file_command, Probe::FileCommand);
    push_if(&mut v, config.trid, Probe::Trid);
    push_if(&mut v, config.exiftool, Probe::Exiftool);
    push_if(&mut v, pe && config.capa, Probe::Capa);
    push_if(&mut v, pe && config.pecli, Probe::Pecli);
    assert(v@ =~= plan_of(*config, pe));
    v
}

/// No executable-only probe is planned for an artifact that is not a
/// Windows executable.
pub proof fn law_plan_gated(c: ProbeConfig)
    ensures
        forall|i: int| 0 <= i < plan_of(c, false).len() ==> !is_pe_only(#[trigger] plan_of(c, false)[i]),
{
    let s = plan_of(c, false);
    assert forall|i: int| 0 <= i < s.len() implies !is_pe_only(#[trigger] s[i]) by {
        let a = opt_probe(c.file_command, Probe::FileCommand);
        let b = opt_probe(c.trid, Probe::Trid);
        let e = opt_probe(c.exiftool, Probe::Exiftool);
        assert(s =~= a + b + e);
    }
}

pub open spec fn program_of(p: Probe) -> Seq<char> {
    match p {
        Probe::FileCommand => "file"@,
        Probe::Trid => "trid"@,
        Probe::Exiftool => "exiftool"@,
        Probe::Capa => "./capa"@,
        Probe::Pecli => "pecli"@,
    }
}

/// The program that a probe runs.
pub fn program(p: Probe) -> (r: String)
    ensures
        r@ == program_of(p),
{
    match p {
        Probe::FileCommand => String::from_str("file"),
        Probe::Trid => String::from_str("trid"),
        Probe::Exiftool => String::from_str("exiftool"),
        Probe::Capa => String::from_str("./capa"),
        Probe::Pecli => String::from_str("pecli"),
    }
}

pub open spec fn subcommand_of(p: Probe) -> Option<Seq<char>> {
    match p {
        Probe::Pecli => Some("info"@),
        _ => None,
    }
}

/// The sub-command given before the path, if the probe takes one.
pub fn subcommand(p: Probe) -> (r: Option<String>)
    ensures
        crate::digest::opt_view(r) == subcommand_of(p),
{
    match p {
        Probe::Pecli => Some(String::from_str("info")),
        _ => None,
    }
}

/// Whether the probe is given the canonical absolute path rather than the
/// stored path.
pub fn takes_full_path(p: Probe) -> (r: bool)
    ensures
        r == (p == Probe::Trid),
{
    match p {
        Probe::Trid => true,
        _ => false,
    }
}

impl ProbeOutputs {
    /// No output from any probe.
    pub fn empty() -> (r: ProbeOutputs)
        ensures
            r.file_command is None,
            r.trid is None,
            r.exiftool is None,
            r.capa is None,
            r.pecli is None,
    {
        ProbeOutputs { file_command: None, trid: None, exiftool: None, capa: None, pecli: None }
    }

    /// Records the output of `p`, leaving the other probes' outputs alone.
    pub fn record(&mut self, p: Probe, output: Option<String>)
        ensures
            p == Probe::FileCommand ==> final(self).file_command == output,
            p != Probe::FileCommand ==> final(self).file_command == old(self).file_command,
            p == Probe::Trid ==> final(self).trid == output,
            p != Probe::Trid ==> final(self).trid == old(self).trid,
            p == Probe::Exiftool ==> final(self).exiftool == output,
            p != Probe::Exiftool ==> final(self).exiftool == old(self).exiftool,
            p == Probe::Capa ==> final(self).capa == output,
            p != Probe::Capa ==> final(self).capa == old(self).capa,
            p == Probe::Pecli ==> final(self).pecli == output,
            p != Probe::Pecli ==> final(self).pecli == old(self).pecli,
    {
        match p {
            Probe::FileCommand => self.file_command = output,
            Probe::Trid => self.trid = output,
            Probe::Exiftool => self.exiftool = output,
            Probe::Capa => self.capa = output,
            Probe::Pecli => self.pecli = output,
        }
    }
}

} // verus!
