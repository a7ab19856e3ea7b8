//! Shader compilation: one stage's source text becomes a driver shader object.
use vstd::prelude::*;
use crate::gl::{
    int_of, name_of, reply_int, reply_name, reply_text, step_is, text_of, Failure, GlCall, GlError, Next,
    Reply, Stage, Step, GL_TRUE,
};

verus! {

/// A compiled shader object, owned: its name is released by `release`.
#[derive(Clone, Copy, Debug, PartialEq, Eq, Structural)]
pub struct Shader {
    pub handle: u32,
    pub stage: Stage,
}

/// The sources of a pipeline: vertex and fragment stages are required, the
/// tessellation and geometry stages optional.
#[derive(Clone, Debug)]
pub struct ShaderSrc {
    pub vertex_shader: String,
    pub fragment_shader: String,
    pub tessellation_control_shader: Option<String>,
    pub tessellation_evaluation_shader: Option<String>,
    pub geometry_shader: Option<String>,
}

/// The number of stage slots of a `ShaderSrc`.
pub const STAGE_SLOTS: usize = 5;

/// The stage of slot `i`, in the order in which a program compiles them.
pub open spec fn slot_stage(i: int) -> Stage {
    if i == 0 {
        Stage::Vertex
    } else if i == 1 {
        Stage::Fragment
    } else if i == 2 {
        Stage::TessEvaluation
    } else if i == 3 {
        Stage::TessControl
    } else {
        Stage::Geometry
    }
}

impl ShaderSrc {
    /// The source of slot `i`, if that stage is present.
    pub open spec fn slot(self, i: int) -> Option<String> {
        if i == 0 {
            Some(self.vertex_shader)
        } else if i == 1 {
            Some(self.fragment_shader)
        } else if i == 2 {
            self.tessellation_evaluation_shader
        } else if i == 3 {
            self.tessellation_control_shader
        } else if i == 4 {
            self.geometry_shader
        } else {
            None
        }
    }

    /// The number of stages present.
    pub open spec fn present_count(self) -> nat {
        2 + (if self.tessellation_evaluation_shader is Some { 1nat } else { 0 })
            + (if self.tessellation_control_shader is Some { 1nat } else { 0 })
            + (if self.geometry_shader is Some { 1nat } else { 0 })
    }

    /// The stage and source of slot `i`, if present.
    pub fn shader_slot(&self, i: usize) -> (r: Option<(Stage, String)>)
        requires
            i < STAGE_SLOTS,
        ensures
            r == (match self.slot(i as int) {
                Some(s) => Some((slot_stage(i as int), s)),
                None => None,
            }),
    {
        let src = if i == 0 {
            Some(self.vertex_shader.clone())
        } else if i == 1 {
            Some(self.fragment_shader.clone())
        } else if i == 2 {
            self.tessellation_evaluation_shader.clone()
        } else if i == 3 {
            self.tessellation_control_shader.clone()
        } else {
            self.geometry_shader.clone()
        };
        match src {
            Some(s) => Some((stage_of_slot(i), s)),
            None => None,
        }
    }
}

pub fn stage_of_slot(i: usize) -> (s: Stage)
    ensures
        s == slot_stage(i as int),
{
    if i == 0 {
        Stage::Vertex
    } else if i == 1 {
        Stage::Fragment
    } else if i == 2 {
        Stage::TessEvaluation
    } else if i == 3 {
        Stage::TessControl
    } else {
        Stage::Geometry
    }
}

/// What compiling `src` for `stage` does next, given the replies from
/// position `at` of `log` on: create the shader, hand it the source, compile,
/// ask the status; on success the shader is done, else fetch its log, delete
/// the shader and fail with that log.
pub open spec fn compile_next(stage: Stage, src: String, log: Seq<Reply>, at: int) -> Next<Shader> {
    let n = log.len() - at;
    let h = name_of(log[at]);
    if n <= 0 {
        Next::Call(GlCall::CreateShader(stage))
    } else if n == 1 {
        Next::Call(GlCall::ShaderSource(h, src))
    } else if n == 2 {
        Next::Call(GlCall::CompileShader(h))
    } else if n == 3 {
        Next::Call(GlCall::GetCompileStatus(h))
    } else if int_of(log[at + 3]) == GL_TRUE {
        Next::Done(Shader { handle: h, stage })
    } else if n == 4 {
        Next::Call(GlCall::GetShaderLog(h))
    } else if n == 5 {
        Next::Call(GlCall::DeleteShader(h))
    } else {
        Next::Fail(Failure::Compile(text_of(log[at + 4])))
    }
}

pub open spec fn shader_view(s: Shader) -> Shader {
    s
}

pub fn compile_step(stage: Stage, src: &String, log: &Vec<Reply>, at: usize) -> (r: Step<Shader>)
    requires
        at <= log.len(),
    ensures
        step_is(r, compile_next(stage, *src, log@, at as int), |s: Shader| shader_view(s)),
{
    let n = log.len() - at;
    if n == 0 {
        return Step::Call(GlCall::CreateShader(stage));
    }
    let h = reply_name(&log[at]);
    if n == 1 {
        Step::Call(GlCall::ShaderSource(h, src.clone()))
    } else if n == 2 {
        Step::Call(GlCall::CompileShader(h))
    } else if n == 3 {
        Step::Call(GlCall::GetCompileStatus(h))
    } else if reply_int(&log[at + 3]) == GL_TRUE {
        Step::Done(Shader { handle: h, stage })
    } else if n == 4 {
        Step::Call(GlCall::GetShaderLog(h))
    } else if n == 5 {
        Step::Call(GlCall::DeleteShader(h))
    } else {
        Step::Fail(GlError::Compile(reply_text(&log[at + 4])))
    }
}

/// A compilation in progress: the stage, its source, and the driver's
/// replies so far.
pub struct ShaderCompile {
    pub stage: Stage,
    pub src: String,
    pub replies: Vec<Reply>,
}

impl ShaderCompile {
    pub open spec fn next_spec(self) -> Next<Shader> {
        compile_next(self.stage, self.src, self.replies@, 0)
    }

    /// The step to take now.
    pub fn next(&self) -> (r: Step<Shader>)
        ensures
            step_is(r, self.next_spec(), |s: Shader| shader_view(s)),
    {
        compile_step(self.stage, &self.src, &self.replies, 0)
    }

    /// Records the reply to the last call and returns the step that follows.
    pub fn step(&mut self, reply: Reply) -> (r: Step<Shader>)
        requires
            old(self).next_spec().is_call(),
        ensures
            final(self).stage == old(self).stage,
            final(self).src == old(self).src,
            final(self).replies@ == old(self).replies@.push(reply),
            step_is(r, final(self).next_spec(), |s: Shader| shader_view(s)),
    {
        self.replies.push(reply);
        self.next()
    }
}

impl Shader {
    /// Starts compiling `src` as a shader of `stage`.
    pub fn new(src: &str, stage: Stage) -> (c: ShaderCompile)
        ensures
            c.stage == stage,
            c.src@ == src@,
            c.replies@.len() == 0,
    {
        ShaderCompile { stage, src: src.to_owned(), replies: Vec::new() }
    }

    /// The calls that release this shader.
    pub fn release(self) -> (r: Vec<GlCall>)
        ensures
            r@ == seq![GlCall::DeleteShader(self.handle)],
    {
        vec![GlCall::DeleteShader(self.handle)]
    }
}

} // verus!
