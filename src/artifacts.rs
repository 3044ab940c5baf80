use vstd::prelude::*;
use vstd::string::*;
use crate::text::{decimal, decimal_text, digit_char, is_digit};

verus! {

/// The temporary files that one run creates.
#[derive(PartialEq, Eq, Structural, Debug, Clone, Copy)]
pub enum ArtifactKind {
    Intro,
    Outro,
    LoopSegment,
    /// The tail of the loop, faded out.
    CrossfadeOut,
    /// The lead-in to the loop start, faded in.
    CrossfadeIn,
    /// The two crossfade halves mixed into one transition.
    Crossfade,
    /// The concatenation manifest.
    Manifest,
}

pub open spec fn artifact_prefix() -> Seq<char> {
    "echo_blend_"@
}

pub open spec fn artifact_suffix(kind: ArtifactKind) -> Seq<char> {
    match kind {
        ArtifactKind::Intro => "_intro.wav"@,
        ArtifactKind::Outro => "_outro.wav"@,
        ArtifactKind::LoopSegment => "_loop.wav"@,
        ArtifactKind::CrossfadeOut => "_crossfade_out.wav"@,
        ArtifactKind::CrossfadeIn => "_crossfade_in.wav"@,
        ArtifactKind::Crossfade => "_crossfade.wav"@,
        ArtifactKind::Manifest => "_concat_list.txt"@,
    }
}

/// The file name of an artifact of the run with identifier `run_id`: the
/// identifier stands between a fixed prefix and a suffix of the artifact's kind.
pub open spec fn artifact_name(run_id: nat, kind: ArtifactKind) -> Seq<char> {
    artifact_prefix() + decimal(run_id) + artifact_suffix(kind)
}

fn suffix_str(kind: ArtifactKind) -> (r: &'static str)
    ensures
        r@ == artifact_suffix(kind),
{
    match kind {
        ArtifactKind::Intro => "_intro.wav",
        ArtifactKind::Outro => "_outro.wav",
        ArtifactKind::LoopSegment => "_loop.wav",
        ArtifactKind::CrossfadeOut => "_crossfade_out.wav",
        ArtifactKind::CrossfadeIn => "_crossfade_in.wav",
        ArtifactKind::Crossfade => "_crossfade.wav",
        ArtifactKind::Manifest => "_concat_list.txt",
    }
}

/// The file name of an artifact of the run `run_id`.
pub fn artifact_file_name(run_id: u64, kind: ArtifactKind) -> (r: String)
    ensures
        r@ == artifact_name(run_id as nat, kind),
{
    let mut s = String::from_str("echo_blend_");
    s.append(decimal_text(run_id).as_str());
    s.append(suffix_str(kind));
    s
}

/// The names of all artifacts of one run.
pub struct ArtifactNames {
    pub intro: String,
    pub outro: String,
    pub loop_segment: String,
    pub crossfade_out: String,
    pub crossfade_in: String,
    pub crossfade: String,
    pub manifest: String,
}

impl ArtifactNames {
    pub open spec fn of_run(&self, run_id: nat) -> bool {
        &&& self.intro@ == artifact_name(run_id, ArtifactKind::Intro)
        &&& self.outro@ == artifact_name(run_id, ArtifactKind::Outro)
        &&& self.loop_segment@ == artifact_name(run_id, ArtifactKind::LoopSegment)
        &&& self.crossfade_out@ == artifact_name(run_id, ArtifactKind::CrossfadeOut)
        &&& self.crossfade_in@ == artifact_name(run_id, ArtifactKind::CrossfadeIn)
        &&& self.crossfade@ == artifact_name(run_id, ArtifactKind::Crossfade)
        &&& self.manifest@ == artifact_name(run_id, ArtifactKind::Manifest)
    }

    /// Names every artifact of the run `run_id`.
    pub fn for_run(run_id: u64) -> (r: ArtifactNames)
        ensures
            r.of_run(run_id as nat),
    {
        ArtifactNames {
            intro: artifact_file_name(run_id, ArtifactKind::Intro),
            outro: artifact_file_name(run_id, ArtifactKind::Outro),
            loop_segment: artifact_file_name(run_id, ArtifactKind::LoopSegment),
            crossfade_out: artifact_file_name(run_id, ArtifactKind::CrossfadeOut),
            crossfade_in: artifact_file_name(run_id, ArtifactKind::CrossfadeIn),
            crossfade: artifact_file_name(run_id, ArtifactKind::Crossfade),
            manifest: artifact_file_name(run_id, ArtifactKind::Manifest),
        }
    }
}

proof fn lemma_digit_char(d: nat)
    requires
        d < 10,
    ensures
        is_digit(digit_char(d)),
        forall|e: nat| e < 10 && digit_char(e) == digit_char(d) ==> e == d,
{
}

pub proof fn lemma_decimal_digits(n: nat)
    ensures
        decimal(n).len() >= 1,
        forall|i: int| 0 <= i < decimal(n).len() ==> is_digit(#[trigger] decimal(n)[i]),
    decreases n,
{
    if n >= 10 {
        lemma_decimal_digits(n / 10);
        lemma_digit_char(n % 10);
    } else {
        lemma_digit_char(n);
    }
}

proof fn lemma_decimal_injective(a: nat, b: nat)
    requires
        decimal(a) == decimal(b),
    ensures
        a == b,
    decreases a,
{
    lemma_decimal_digits(a / 10);
    lemma_decimal_digits(b / 10);
    if a < 10 && b < 10 {
        lemma_digit_char(a);
        assert(decimal(a)[0] == digit_char(a));
        assert(decimal(b)[0] == digit_char(b));
    } else if a < 10 {
        assert(decimal(b).len() >= 2);
    } else if b < 10 {
        assert(decimal(a).len() >= 2);
    } else {
        let da = decimal(a / 10);
        let db = decimal(b / 10);
        assert(decimal(a).last() == digit_char(a % 10));
        assert(decimal(b).last() == digit_char(b % 10));
        lemma_digit_char(a % 10);
        assert(da =~= decimal(a).drop_last());
        assert(db =~= decimal(b).drop_last());
        lemma_decimal_injective(a / 10, b / 10);
        assert(a % 10 == b % 10);
        assert(a == 10 * (a / 10) + a % 10);
        assert(b == 10 * (b / 10) + b % 10);
    }
}

proof fn lemma_suffix_shape(kind: ArtifactKind)
    ensures
        artifact_suffix(kind).len() >= 1,
        artifact_suffix(kind)[0] == '_',
{
    reveal_strlit("_intro.wav");
    reveal_strlit("_outro.wav");
    reveal_strlit("_loop.wav");
    reveal_strlit("_crossfade_out.wav");
    reveal_strlit("_crossfade_in.wav");
    reveal_strlit("_crossfade.wav");
    reveal_strlit("_concat_list.txt");
}

proof fn lemma_suffix_injective(a: ArtifactKind, b: ArtifactKind)
    requires
        artifact_suffix(a) == artifact_suffix(b),
    ensures
        a == b,
{
    reveal_strlit("_intro.wav");
    reveal_strlit("_outro.wav");
    reveal_strlit("_loop.wav");
    reveal_strlit("_crossfade_out.wav");
    reveal_strlit("_crossfade_in.wav");
    reveal_strlit("_crossfade.wav");
    reveal_strlit("_concat_list.txt");
    if a != b {
        let sa = artifact_suffix(a);
        let sb = artifact_suffix(b);
        if sa.len() == sb.len() {
            assert(sa[1] != sb[1] || sa[2] != sb[2] || sa[3] != sb[3]);
        }
    }
}

/// Two artifact names are equal only when they belong to the same run and
/// name the same kind of artifact.
pub proof fn lemma_artifact_name_injective(id1: nat, k1: ArtifactKind, id2: nat, k2: ArtifactKind)
    requires
        artifact_name(id1, k1) == artifact_name(id2, k2),
    ensures
        id1 == id2,
        k1 == k2,
{
    let p = artifact_prefix();
    let d1 = decimal(id1);
    let d2 = decimal(id2);
    let s1 = artifact_suffix(k1);
    let s2 = artifact_suffix(k2);
    let n1 = artifact_name(id1, k1);
    let n2 = artifact_name(id2, k2);
    lemma_decimal_digits(id1);
    lemma_decimal_digits(id2);
    lemma_suffix_shape(k1);
    lemma_suffix_shape(k2);
    let t1 = d1 + s1;
    let t2 = d2 + s2;
    assert(t1 =~= n1.subrange(p.len() as int, n1.len() as int));
    assert(t2 =~= n2.subrange(p.len() as int, n2.len() as int));
    assert(t1 == t2);
    if d1.len() < d2.len() {
        assert(t1[d1.len() as int] == '_');
        assert(is_digit(d2[d1.len() as int]));
        assert(t2[d1.len() as int] == d2[d1.len() as int]);
    } else if d2.len() < d1.len() {
        assert(t2[d2.len() as int] == '_');
        assert(is_digit(d1[d2.len() as int]));
        assert(t1[d2.len() as int] == d1[d2.len() as int]);
    }
    assert(d1 =~= t1.subrange(0, d1.len() as int));
    assert(d2 =~= t2.subrange(0, d2.len() as int));
    assert(s1 =~= t1.subrange(d1.len() as int, t1.len() as int));
    assert(s2 =~= t2.subrange(d2.len() as int, t2.len() as int));
    lemma_decimal_injective(id1, id2);
    lemma_suffix_injective(k1, k2);
}

/// Every artifact name starts with the letter `e` of its prefix.
pub proof fn lemma_name_starts_with_e(id: nat, kind: ArtifactKind)
    ensures
        artifact_name(id, kind).len() > 0,
        artifact_name(id, kind)[0] == 'e',
{
    reveal_strlit("echo_blend_");
    let n = artifact_name(id, kind);
    assert(n[0] == artifact_prefix()[0]);
}

/// Runs with distinct identifiers never share a temporary artifact, whatever
/// kinds of artifact are compared.
pub proof fn runs_with_distinct_ids_share_no_artifact(id1: nat, id2: nat, k1: ArtifactKind, k2: ArtifactKind)
    requires
        id1 != id2,
    ensures
        artifact_name(id1, k1) != artifact_name(id2, k2),
{
    if artifact_name(id1, k1) == artifact_name(id2, k2) {
        lemma_artifact_name_injective(id1, k1, id2, k2);
    }
}

} // verus!
