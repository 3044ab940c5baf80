use vstd::prelude::*;
use vstd::string::*;
use crate::artifacts::{artifact_name, ArtifactKind, ArtifactNames};
use crate::request::{valid_request, LoopRequest};
use crate::text::{has_suffix, seconds, seconds_text, str_ends_with};

verus! {

/// The characters of each string, in order.
pub open spec fn strings_view(v: Seq<String>) -> Seq<Seq<char>> {
    v.map_values(|s: String| s@)
}

fn push_text(v: &mut Vec<String>, s: &str)
    ensures
        strings_view(final(v)@) == strings_view(old(v)@).push(s@),
{
    v.push(String::from_str(s));
    assert(strings_view(v@) =~= strings_view(old(v)@).push(s@));
}

fn push_string(v: &mut Vec<String>, s: String)
    ensures
        strings_view(final(v)@) == strings_view(old(v)@).push(s@),
{
    let ghost t = s@;
    v.push(s);
    assert(strings_view(v@) =~= strings_view(old(v)@).push(t));
}

/// The intro: the input from its start up to the beginning of the crossfade.
pub open spec fn intro_args(req: LoopRequest, id: nat) -> Seq<Seq<char>> {
    seq![
        "-y"@,
        "-i"@,
        req.input(),
        "-t"@,
        seconds((req.end_ms - req.crossfade_ms) as nat),
        artifact_name(id, ArtifactKind::Intro),
    ]
}

/// The crossfade window before the loop end, faded out.
pub open spec fn fade_out_args(req: LoopRequest, id: nat) -> Seq<Seq<char>> {
    let at = seconds((req.end_ms - req.crossfade_ms) as nat);
    let length = seconds(req.crossfade_ms as nat);
    seq![
        "-y"@,
        "-i"@,
        req.input(),
        "-ss"@,
        at,
        "-t"@,
        length,
        "-af"@,
        "afade=t=out:st="@ + at + ":d="@ + length,
        artifact_name(id, ArtifactKind::CrossfadeOut),
    ]
}

/// The crossfade window before the loop start, faded in.
pub open spec fn fade_in_args(req: LoopRequest, id: nat) -> Seq<Seq<char>> {
    let at = seconds((req.start_ms - req.crossfade_ms) as nat);
    let length = seconds(req.crossfade_ms as nat);
    seq![
        "-y"@,
        "-i"@,
        req.input(),
        "-ss"@,
        at,
        "-t"@,
        length,
        "-af"@,
        "afade=t=in:st="@ + at + ":d="@ + length,
        artifact_name(id, ArtifactKind::CrossfadeIn),
    ]
}

/// The two halves mixed at equal weight without normalisation; the first
/// input's duration governs.
pub open spec fn mix_args(id: nat) -> Seq<Seq<char>> {
    seq![
        "-y"@,
        "-i"@,
        artifact_name(id, ArtifactKind::CrossfadeOut),
        "-i"@,
        artifact_name(id, ArtifactKind::CrossfadeIn),
        "-filter_complex"@,
        "amix=inputs=2:duration=first:dropout_transition=0:normalize=0"@,
        artifact_name(id, ArtifactKind::Crossfade),
    ]
}

/// The repeatable body: from the loop start, for the loop length less the crossfade.
pub open spec fn loop_args(req: LoopRequest, id: nat) -> Seq<Seq<char>> {
    seq![
        "-y"@,
        "-i"@,
        req.input(),
        "-ss"@,
        seconds(req.start_ms as nat),
        "-t"@,
        seconds((req.end_ms - req.start_ms - req.crossfade_ms) as nat),
        artifact_name(id, ArtifactKind::LoopSegment),
    ]
}

/// The outro: the input from the loop start to its end.
pub open spec fn outro_args(req: LoopRequest, id: nat) -> Seq<Seq<char>> {
    seq![
        "-y"@,
        "-i"@,
        req.input(),
        "-ss"@,
        seconds(req.start_ms as nat),
        artifact_name(id, ArtifactKind::Outro),
    ]
}

/// A lossy output is re-encoded at a fixed quality; any other is copied.
pub open spec fn codec_args_for(output: Seq<char>) -> Seq<Seq<char>> {
    if has_suffix(output, ".mp3"@) {
        seq!["-q:a"@, "2"@]
    } else {
        seq!["-c"@, "copy"@]
    }
}

/// A test render joins intro, crossfade (if any) and outro in a filter graph.
pub open spec fn filter_graph_merge_args(req: LoopRequest, id: nat) -> Seq<Seq<char>> {
    if req.crossfaded() {
        seq![
            "-y"@,
            "-i"@,
            artifact_name(id, ArtifactKind::Intro),
            "-i"@,
            artifact_name(id, ArtifactKind::Crossfade),
            "-i"@,
            artifact_name(id, ArtifactKind::Outro),
            "-filter_complex"@,
            "concat=n=3:v=0:a=1"@,
            req.output_path@,
        ]
    } else {
        seq![
            "-y"@,
            "-i"@,
            artifact_name(id, ArtifactKind::Intro),
            "-i"@,
            artifact_name(id, ArtifactKind::Outro),
            "-filter_complex"@,
            "concat=n=2:v=0:a=1"@,
            req.output_path@,
        ]
    }
}

/// A full render hands the manifest to the tool's concatenation mode.
pub open spec fn manifest_merge_args(req: LoopRequest, id: nat) -> Seq<Seq<char>> {
    seq!["-y"@, "-f"@, "concat"@, "-safe"@, "0"@, "-i"@, artifact_name(id, ArtifactKind::Manifest)]
        + codec_args_for(req.output_path@) + seq![req.output_path@]
}

pub open spec fn merge_args(req: LoopRequest, id: nat) -> Seq<Seq<char>> {
    if req.is_test {
        filter_graph_merge_args(req, id)
    } else {
        manifest_merge_args(req, id)
    }
}

/// One repetition of the loop: the crossfade (if any), then the body.
pub open spec fn repetition(crossfaded: bool, id: nat) -> Seq<Seq<char>> {
    if crossfaded {
        seq![artifact_name(id, ArtifactKind::Crossfade), artifact_name(id, ArtifactKind::LoopSegment)]
    } else {
        seq![artifact_name(id, ArtifactKind::LoopSegment)]
    }
}

pub open spec fn repetitions(count: nat, crossfaded: bool, id: nat) -> Seq<Seq<char>>
    decreases count,
{
    if count == 0 {
        Seq::empty()
    } else {
        repetitions((count - 1) as nat, crossfaded, id) + repetition(crossfaded, id)
    }
}

/// The files of a full render in playback order: the intro, `loop_count`
/// repetitions, a trailing crossfade (if any), and the outro.
pub open spec fn manifest_entries(req: LoopRequest, id: nat) -> Seq<Seq<char>> {
    seq![artifact_name(id, ArtifactKind::Intro)] + repetitions(req.loop_count as nat, req.crossfaded(), id)
        + (if req.crossfaded() {
        seq![artifact_name(id, ArtifactKind::Crossfade)]
    } else {
        Seq::empty()
    }) + seq![artifact_name(id, ArtifactKind::Outro)]
}

/// One manifest line.
pub open spec fn entry_line(path: Seq<char>) -> Seq<char> {
    "file '"@ + path + "'\n"@
}

/// A manifest listing `entries` in order, one line each.
pub open spec fn manifest_text(entries: Seq<Seq<char>>) -> Seq<char>
    decreases entries.len(),
{
    if entries.len() == 0 {
        Seq::empty()
    } else {
        manifest_text(entries.drop_last()) + entry_line(entries.last())
    }
}

fn input_of(req: &LoopRequest) -> (r: String)
    ensures
        r@ == req.input(),
{
    match &req.input_path {
        Some(p) => p.clone(),
        None => String::new(),
    }
}

/// The arguments that render the intro.
pub fn intro_arguments(req: &LoopRequest, names: &ArtifactNames, run_id: u64) -> (r: Vec<String>)
    requires
        valid_request(*req),
        names.of_run(run_id as nat),
    ensures
        strings_view(r@) == intro_args(*req, run_id as nat),
{
    let mut a: Vec<String> = Vec::new();
    push_text(&mut a, "-y");
    push_text(&mut a, "-i");
    push_string(&mut a, input_of(req));
    push_text(&mut a, "-t");
    push_string(&mut a, seconds_text(req.end_ms - req.crossfade_ms));
    push_string(&mut a, names.intro.clone());
    assert(strings_view(a@) =~= intro_args(*req, run_id as nat));
    a
}

fn fade_filter(direction: &str, at: &String, length: &String) -> (r: String)
    ensures
        r@ == direction@ + at@ + ":d="@ + length@,
{
    let mut f = String::from_str(direction);
    f.append(at.as_str());
    f.append(":d=");
    f.append(length.as_str());
    f
}

/// The arguments that render the faded-out half of the crossfade.
pub fn fade_out_arguments(req: &LoopRequest, names: &ArtifactNames, run_id: u64) -> (r: Vec<String>)
    requires
        valid_request(*req),
        names.of_run(run_id as nat),
    ensures
        strings_view(r@) == fade_out_args(*req, run_id as nat),
{
    let at = seconds_text(req.end_ms - req.crossfade_ms);
    let length = seconds_text(req.crossfade_ms);
    let filter = fade_filter("afade=t=out:st=", &at, &length);
    let mut a: Vec<String> = Vec::new();
    push_text(&mut a, "-y");
    push_text(&mut a, "-i");
    push_string(&mut a, input_of(req));
    push_text(&mut a, "-ss");
    push_string(&mut a, at);
    push_text(&mut a, "-t");
    push_string(&mut a, length);
    push_text(&mut a, "-af");
    push_string(&mut a, filter);
    push_string(&mut a, names.crossfade_out.clone());
    assert(strings_view(a@) =~= fade_out_args(*req, run_id as nat));
    a
}

/// The arguments that render the faded-in half of the crossfade.
pub fn fade_in_arguments(req: &LoopRequest, names: &ArtifactNames, run_id: u64) -> (r: Vec<String>)
    requires
        valid_request(*req),
        names.of_run(run_id as nat),
    ensures
        strings_view(r@) == fade_in_args(*req, run_id as nat),
{
    let at = seconds_text(req.start_ms - req.crossfade_ms);
    let length = seconds_text(req.crossfade_ms);
    let filter = fade_filter("afade=t=in:st=", &at, &length);
    let mut a: Vec<String> = Vec::new();
    push_text(&mut a, "-y");
    push_text(&mut a, "-i");
    push_string(&mut a, input_of(req));
    push_text(&mut a, "-ss");
    push_string(&mut a, at);
    push_text(&mut a, "-t");
    push_string(&mut a, length);
    push_text(&mut a, "-af");
    push_string(&mut a, filter);
    push_string(&mut a, names.crossfade_in.clone());
    assert(strings_view(a@) =~= fade_in_args(*req, run_id as nat));
    a
}

/// The arguments that mix the two crossfade halves.
pub fn mix_arguments(names: &ArtifactNames, run_id: u64) -> (r: Vec<String>)
    requires
        names.of_run(run_id as nat),
    ensures
        strings_view(r@) == mix_args(run_id as nat),
{
    let mut a: Vec<String> = Vec::new();
    push_text(&mut a, "-y");
    push_text(&mut a, "-i");
    push_string(&mut a, names.crossfade_out.clone());
    push_text(&mut a, "-i");
    push_string(&mut a, names.crossfade_in.clone());
    push_text(&mut a, "-filter_complex");
    push_text(&mut a, "amix=inputs=2:duration=first:dropout_transition=0:normalize=0");
    push_string(&mut a, names.crossfade.clone());
    assert(strings_view(a@) =~= mix_args(run_id as nat));
    a
}

/// The arguments that render the repeatable loop body.
pub fn loop_arguments(req: &LoopRequest, names: &ArtifactNames, run_id: u64) -> (r: Vec<String>)
    requires
        valid_request(*req),
        names.of_run(run_id as nat),
    ensures
        strings_view(r@) == loop_args(*req, run_id as nat),
{
    let mut a: Vec<String> = Vec::new();
    push_text(&mut a, "-y");
    push_text(&mut a, "-i");
    push_string(&mut a, input_of(req));
    push_text(&mut a, "-ss");
    push_string(&mut a, seconds_text(req.start_ms));
    push_text(&mut a, "-t");
    push_string(&mut a, seconds_text(req.end_ms - req.start_ms - req.crossfade_ms));
    push_string(&mut a, names.loop_segment.clone());
    assert(strings_view(a@) =~= loop_args(*req, run_id as nat));
    a
}

/// The arguments that render the outro.
pub fn outro_arguments(req: &LoopRequest, names: &ArtifactNames, run_id: u64) -> (r: Vec<String>)
    requires
        valid_request(*req),
        names.of_run(run_id as nat),
    ensures
        strings_view(r@) == outro_args(*req, run_id as nat),
{
    let mut a: Vec<String> = Vec::new();
    push_text(&mut a, "-y");
    push_text(&mut a, "-i");
    push_string(&mut a, input_of(req));
    push_text(&mut a, "-ss");
    push_string(&mut a, seconds_text(req.start_ms));
    push_string(&mut a, names.outro.clone());
    assert(strings_view(a@) =~= outro_args(*req, run_id as nat));
    a
}

/// The codec arguments of the merge: a fixed-quality re-encode for an output
/// ending in `.mp3`, a stream copy for any other.
pub fn codec_arguments(output_path: &str) -> (r: Vec<String>)
    ensures
        strings_view(r@) == codec_args_for(output_path@),
{
    let mut a: Vec<String> = Vec::new();
    if str_ends_with(output_path, ".mp3") {
        push_text(&mut a, "-q:a");
        push_text(&mut a, "2");
    } else {
        push_text(&mut a, "-c");
        push_text(&mut a, "copy");
    }
    assert(strings_view(a@) =~= codec_args_for(output_path@));
    a
}

/// The arguments of the merge that produces the output file.
pub fn merge_arguments(req: &LoopRequest, names: &ArtifactNames, run_id: u64) -> (r: Vec<String>)
    requires
        names.of_run(run_id as nat),
    ensures
        strings_view(r@) == merge_args(*req, run_id as nat),
{
    let mut a: Vec<String> = Vec::new();
    push_text(&mut a, "-y");
    if req.is_test {
        push_text(&mut a, "-i");
        push_string(&mut a, names.intro.clone());
        if req.crossfade_ms > 0 {
            push_text(&mut a, "-i");
            push_string(&mut a, names.crossfade.clone());
            push_text(&mut a, "-i");
            push_string(&mut a, names.outro.clone());
            push_text(&mut a, "-filter_complex");
            push_text(&mut a, "concat=n=3:v=0:a=1");
        } else {
            push_text(&mut a, "-i");
            push_string(&mut a, names.outro.clone());
            push_text(&mut a, "-filter_complex");
            push_text(&mut a, "concat=n=2:v=0:a=1");
        }
    } else {
        push_text(&mut a, "-f");
        push_text(&mut a, "concat");
        push_text(&mut a, "-safe");
        push_text(&mut a, "0");
        push_text(&mut a, "-i");
        push_string(&mut a, names.manifest.clone());
        let codec = codec_arguments(req.output_path.as_str());
        assert(codec@.len() == strings_view(codec@).len());
        push_string(&mut a, codec[0].clone());
        push_string(&mut a, codec[1].clone());
    }
    push_string(&mut a, req.output_path.clone());
    assert(strings_view(a@) =~= merge_args(*req, run_id as nat));
    a
}

/// The files of a full render in playback order.
pub fn manifest_entry_list(req: &LoopRequest, names: &ArtifactNames, run_id: u64) -> (r: Vec<String>)
    requires
        names.of_run(run_id as nat),
    ensures
        strings_view(r@) == manifest_entries(*req, run_id as nat),
{
    let ghost id = run_id as nat;
    let crossfaded = req.crossfade_ms > 0;
    let mut a: Vec<String> = Vec::new();
    push_string(&mut a, names.intro.clone());
    let mut i: u8 = 0;
    while i < req.loop_count
        invariant
            i <= req.loop_count,
            names.of_run(id),
            crossfaded == req.crossfaded(),
            strings_view(a@) == seq![artifact_name(id, ArtifactKind::Intro)] + repetitions(
                i as nat,
                crossfaded,
                id,
            ),
        decreases req.loop_count - i,
    {
        let ghost before = strings_view(a@);
        if crossfaded {
            push_string(&mut a, names.crossfade.clone());
        }
        push_string(&mut a, names.loop_segment.clone());
        i = i + 1;
        assert(strings_view(a@) =~= before + repetition(crossfaded, id));
        assert(repetitions(i as nat, crossfaded, id) == repetitions((i - 1) as nat, crossfaded, id)
            + repetition(crossfaded, id));
        assert(strings_view(a@) =~= seq![artifact_name(id, ArtifactKind::Intro)] + repetitions(
            i as nat,
            crossfaded,
            id,
        ));
    }
    if crossfaded {
        push_string(&mut a, names.crossfade.clone());
    }
    push_string(&mut a, names.outro.clone());
    assert(strings_view(a@) =~= manifest_entries(*req, run_id as nat));
    a
}

/// The manifest that lists `entries`, one `file '<path>'` line each.
pub fn manifest_contents(entries: &Vec<String>) -> (r: String)
    ensures
        r@ == manifest_text(strings_view(entries@)),
{
    let mut s = String::new();
    let mut i: usize = 0;
    while i < entries.len()
        invariant
            i <= entries.len(),
            s@ == manifest_text(strings_view(entries@).take(i as int)),
        decreases entries.len() - i,
    {
        s.append("file '");
        s.append(entries[i].as_str());
        s.append("'\n");
        let ghost t = strings_view(entries@).take(i + 1);
        assert(t.drop_last() =~= strings_view(entries@).take(i as int));
        i = i + 1;
    }
    assert(strings_view(entries@).take(i as int) =~= strings_view(entries@));
    s
}

} // verus!
