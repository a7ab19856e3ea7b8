//! Program linking: every present stage is compiled and attached to a fresh
//! program object, which is then linked. A failure anywhere releases what was
//! created before it is reported.
use vstd::prelude::*;
use crate::gl::{int_of, name_of, reply_int, reply_name, reply_text, step_is, text_of, Failure, GlCall, GlError, Next, Reply, Step, GL_TRUE};
use crate::shader::{compile_next, compile_step, slot_stage, Shader, ShaderSrc, STAGE_SLOTS};

verus! {

/// A linked program; it owns its name and the shaders attached to it.
#[derive(Debug)]
pub struct Program {
    handle: u32,
    shaders: Vec<Shader>,
}

/// The model of a program: its name and its shaders, in the order compiled.
pub struct ProgramView {
    pub handle: u32,
    pub shaders: Seq<Shader>,
}

impl Program {
    pub closed spec fn spec_handle(self) -> u32 {
        self.handle
    }

    pub closed spec fn spec_shaders(self) -> Seq<Shader> {
        self.shaders@
    }
}

pub open spec fn program_view(p: Program) -> ProgramView {
    ProgramView { handle: p.spec_handle(), shaders: p.spec_shaders() }
}

/// After a failure: delete the shaders attached so far, in order, then the
/// program, then report `f`. `k` counts the calls of this clean-up made so far.
pub open spec fn abandon(p: u32, done: Seq<Shader>, k: int, f: Failure) -> Next<ProgramView> {
    if 0 <= k < done.len() {
        Next::Call(GlCall::DeleteShader(done[k].handle))
    } else if k == done.len() {
        Next::Call(GlCall::DeleteProgram(p))
    } else {
        Next::Fail(f)
    }
}

/// Once every stage is attached: link, ask the status; on success the program
/// is done, else fetch the program's log, clean up and fail with that log.
pub open spec fn link_finish(p: u32, done: Seq<Shader>, log: Seq<Reply>, at: int) -> Next<ProgramView> {
    let n = log.len() - at;
    if n <= 0 {
        Next::Call(GlCall::LinkProgram(p))
    } else if n == 1 {
        Next::Call(GlCall::GetLinkStatus(p))
    } else if int_of(log[at + 1]) == GL_TRUE {
        Next::Done(ProgramView { handle: p, shaders: done })
    } else if n == 2 {
        Next::Call(GlCall::GetProgramLog(p))
    } else {
        abandon(p, done, n - 3, Failure::Link(text_of(log[at + 2])))
    }
}

/// From slot `i` on, with the replies from position `at` of `log`: compile
/// each present stage and attach it to `p`; a failed compilation abandons the
/// program.
pub open spec fn link_stages(
    src: ShaderSrc,
    p: u32,
    i: nat,
    at: int,
    done: Seq<Shader>,
    log: Seq<Reply>,
) -> Next<ProgramView>
    decreases 5 - i,
{
    if i >= 5 {
        link_finish(p, done, log, at)
    } else {
        match src.slot(i as int) {
            None => link_stages(src, p, i + 1, at, done, log),
            Some(text) => match compile_next(slot_stage(i as int), text, log, at) {
                Next::Call(c) => Next::Call(c),
                Next::Done(sh) => if log.len() - at == 4 {
                    Next::Call(GlCall::AttachShader(p, sh.handle))
                } else {
                    link_stages(src, p, i + 1, at + 5, done.push(sh), log)
                },
                Next::Fail(f) => abandon(p, done, log.len() - (at + 6), f),
            },
        }
    }
}

/// What linking `src` does next, given the driver's replies `log`: create a
/// program (a zero name fails), then compile and attach each stage, then link.
pub open spec fn link_next(src: ShaderSrc, log: Seq<Reply>) -> Next<ProgramView> {
    if log.len() == 0 {
        Next::Call(GlCall::CreateProgram)
    } else if name_of(log[0]) == 0 {
        Next::Fail(Failure::NoProgram)
    } else {
        link_stages(src, name_of(log[0]), 0, 1, Seq::empty(), log)
    }
}

fn abandon_step(p: u32, done: &Vec<Shader>, k: usize, e: GlError) -> (r: Step<Program>)
    ensures
        step_is(r, abandon(p, done@, k as int, e.view()), |q: Program| program_view(q)),
{
    if k < done.len() {
        Step::Call(GlCall::DeleteShader(done[k].handle))
    } else if k == done.len() {
        Step::Call(GlCall::DeleteProgram(p))
    } else {
        Step::Fail(e)
    }
}

fn finish_step(p: u32, done: Vec<Shader>, log: &Vec<Reply>, at: usize) -> (r: Step<Program>)
    requires
        at <= log.len(),
    ensures
        step_is(r, link_finish(p, done@, log@, at as int), |q: Program| program_view(q)),
{
    let n = log.len() - at;
    if n == 0 {
        Step::Call(GlCall::LinkProgram(p))
    } else if n == 1 {
        Step::Call(GlCall::GetLinkStatus(p))
    } else if reply_int(&log[at + 1]) == GL_TRUE {
        Step::Done(Program { handle: p, shaders: done })
    } else if n == 2 {
        Step::Call(GlCall::GetProgramLog(p))
    } else {
        abandon_step(p, &done, n - 3, GlError::Link(reply_text(&log[at + 2])))
    }
}

pub fn link_step(src: &ShaderSrc, log: &Vec<Reply>) -> (r: Step<Program>)
    ensures
        step_is(r, link_next(*src, log@), |q: Program| program_view(q)),
{
    if log.len() == 0 {
        return Step::Call(GlCall::CreateProgram);
    }
    let p = reply_name(&log[0]);
    if p == 0 {
        return Step::Fail(GlError::NoProgram);
    }
    let mut i: usize = 0;
    let mut at: usize = 1;
    let mut done: Vec<Shader> = Vec::new();
    while i < STAGE_SLOTS
        invariant
            i <= STAGE_SLOTS,
            1 <= at <= log.len(),
            p == name_of(log@[0]),
            p != 0,
            link_next(*src, log@) == link_stages(*src, p, i as nat, at as int, done@, log@),
        decreases STAGE_SLOTS - i,
    {
        match src.shader_slot(i) {
            None => {
                i = i + 1;
            },
            Some((stage, text)) => {
                match compile_step(stage, &text, log, at) {
                    Step::Call(c) => {
                        return Step::Call(c);
                    },
                    Step::Done(sh) => {
                        if log.len() - at == 4 {
                            return Step::Call(GlCall::AttachShader(p, sh.handle));
                        }
                        done.push(sh);
                        at = at + 5;
                        i = i + 1;
                    },
                    Step::Fail(e) => {
                        return abandon_step(p, &done, log.len() - (at + 6), e);
                    },
                }
            },
        }
    }
    finish_step(p, done, log, at)
}

/// A link in progress: the sources and the driver's replies so far.
pub struct ProgramLink {
    pub src: ShaderSrc,
    pub replies: Vec<Reply>,
}

impl ProgramLink {
    pub open spec fn next_spec(self) -> Next<ProgramView> {
        link_next(self.src, self.replies@)
    }

    /// The step to take now.
    pub fn next(&self) -> (r: Step<Program>)
        ensures
            step_is(r, self.next_spec(), |q: Program| program_view(q)),
    {
        link_step(&self.src, &self.replies)
    }

    /// Records the reply to the last call and returns the step that follows.
    pub fn step(&mut self, reply: Reply) -> (r: Step<Program>)
        requires
            old(self).next_spec().is_call(),
        ensures
            final(self).src == old(self).src,
            final(self).replies@ == old(self).replies@.push(reply),
            step_is(r, final(self).next_spec(), |q: Program| program_view(q)),
    {
        self.replies.push(reply);
        self.next()
    }
}

/// The calls that release a program: the program object, then its shaders.
pub open spec fn program_release_calls(p: ProgramView) -> Seq<GlCall> {
    seq![GlCall::DeleteProgram(p.handle)] + p.shaders.map_values(|s: Shader| GlCall::DeleteShader(s.handle))
}

impl Program {
    /// Starts linking a program from `src`.
    pub fn new(src: ShaderSrc) -> (l: ProgramLink)
        ensures
            l.src == src,
            l.replies@.len() == 0,
    {
        ProgramLink { src, replies: Vec::new() }
    }

    pub fn id(&self) -> (h: u32)
        ensures
            h == program_view(*self).handle,
    {
        self.handle
    }

    pub fn shaders(&self) -> (s: &Vec<Shader>)
        ensures
            s@ == program_view(*self).shaders,
    {
        &self.shaders
    }

    /// The call that makes this program the current one.
    pub fn useprog(&self) -> (c: GlCall)
        ensures
            c == GlCall::UseProgram(program_view(*self).handle),
    {
        GlCall::UseProgram(self.handle)
    }

    /// The calls that release this program and its shaders.
    pub fn release(self) -> (r: Vec<GlCall>)
        ensures
            r@ == program_release_calls(program_view(self)),
    {
        self.release_calls()
    }

    /// The calls that would release this program and its shaders.
    pub fn release_calls(&self) -> (r: Vec<GlCall>)
        ensures
            r@ == program_release_calls(program_view(*self)),
    {
        let mut r: Vec<GlCall> = vec![GlCall::DeleteProgram(self.handle)];
        let mut i: usize = 0;
        while i < self.shaders.len()
            invariant
                i <= self.shaders@.len(),
                r@ == seq![GlCall::DeleteProgram(self.handle)] + self.shaders@.subrange(0, i as int).map_values(
                    |s: Shader| GlCall::DeleteShader(s.handle),
                ),
            decreases self.shaders@.len() - i,
        {
            r.push(GlCall::DeleteShader(self.shaders[i].handle));
            i = i + 1;
            assert(self.shaders@.subrange(0, i as int) == self.shaders@.subrange(0, i - 1).push(self.shaders@[i - 1]));
        }
        assert(self.shaders@.subrange(0, i as int) == self.shaders@);
        r
    }
}

} // verus!
