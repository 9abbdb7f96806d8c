use vstd::prelude::*;

verus! {

/// One chunk of a program's output as the agent streams it. `exit_code` is
/// authoritative on the last frame only.
#[derive(Debug)]
pub struct ExecutionFrame {
    pub stdout: Vec<u8>,
    pub stderr: Vec<u8>,
    pub exit_code: i32,
}

/// Everything a run printed, and how it ended.
#[derive(Debug)]
pub struct Transcript {
    pub stdout: Vec<u8>,
    pub stderr: Vec<u8>,
    pub exit_code: Option<i32>,
}

/// The standard output carried by a run of frames, in order.
pub open spec fn stdout_of(fs: Seq<ExecutionFrame>) -> Seq<u8>
    decreases fs.len(),
{
    if fs.len() == 0 {
        Seq::empty()
    } else {
        stdout_of(fs.drop_last()) + fs.last().stdout@
    }
}

/// The standard error carried by a run of frames, in order.
pub open spec fn stderr_of(fs: Seq<ExecutionFrame>) -> Seq<u8>
    decreases fs.len(),
{
    if fs.len() == 0 {
        Seq::empty()
    } else {
        stderr_of(fs.drop_last()) + fs.last().stderr@
    }
}

/// The exit code of a run of frames: the last frame's, if there is one.
pub open spec fn exit_of(fs: Seq<ExecutionFrame>) -> Option<i32> {
    if fs.len() == 0 {
        None
    } else {
        Some(fs.last().exit_code)
    }
}

fn append_bytes(out: &mut Vec<u8>, more: &Vec<u8>)
    ensures
        final(out)@ == old(out)@ + more@,
{
    let mut i: usize = 0;
    while i < more.len()
        invariant
            i <= more@.len(),
            out@ == old(out)@ + more@.subrange(0, i as int),
        decreases more@.len() - i,
    {
        out.push(more[i]);
        i = i + 1;
        assert(more@.subrange(0, i as int) == more@.subrange(0, i - 1) + seq![more@[i - 1]]);
    }
    assert(more@.subrange(0, more@.len() as int) == more@);
}

/// Joins the frames a run delivered: all standard output, all standard error,
/// and the last frame's exit code.
pub fn collect(frames: &Vec<ExecutionFrame>) -> (r: Transcript)
    ensures
        r.stdout@ == stdout_of(frames@),
        r.stderr@ == stderr_of(frames@),
        r.exit_code == exit_of(frames@),
{
    let mut stdout: Vec<u8> = Vec::new();
    let mut stderr: Vec<u8> = Vec::new();
    let mut exit_code: Option<i32> = None;
    let mut i: usize = 0;
    while i < frames.len()
        invariant
            i <= frames@.len(),
            stdout@ == stdout_of(frames@.subrange(0, i as int)),
            stderr@ == stderr_of(frames@.subrange(0, i as int)),
            exit_code == exit_of(frames@.subrange(0, i as int)),
        decreases frames@.len() - i,
    {
        let ghost before = frames@.subrange(0, i as int);
        append_bytes(&mut stdout, &frames[i].stdout);
        append_bytes(&mut stderr, &frames[i].stderr);
        exit_code = Some(frames[i].exit_code);
        i = i + 1;
        assert(frames@.subrange(0, i as int).drop_last() == before);
    }
    assert(frames@.subrange(0, frames@.len() as int) == frames@);
    Transcript { stdout, stderr, exit_code }
}

/// However the output is cut into frames, joining the pieces gives the whole:
/// the output of two runs of frames one after the other is the output of the
/// first followed by that of the second, and the exit code is the later one.
pub proof fn lemma_output_concat(fs: Seq<ExecutionFrame>, gs: Seq<ExecutionFrame>)
    ensures
        stdout_of(fs + gs) == stdout_of(fs) + stdout_of(gs),
        stderr_of(fs + gs) == stderr_of(fs) + stderr_of(gs),
        exit_of(fs + gs) == if gs.len() == 0 {
            exit_of(fs)
        } else {
            exit_of(gs)
        },
    decreases gs.len(),
{
    if gs.len() == 0 {
        assert(fs + gs == fs);
    } else {
        assert((fs + gs).drop_last() == fs + gs.drop_last());
        lemma_output_concat(fs, gs.drop_last());
    }
}

} // verus!
