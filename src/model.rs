//! A model of the driver's state, as far as the laws of this library speak of
//! it: which objects are alive, what is current, and what each program's
//! uniforms hold.
use vstd::prelude::*;
use crate::gl::{name_of, GlCall, Next, Reply};
use crate::uniform::UniformValue;

verus! {

/// An object of the driver, by kind and name.
pub enum Object {
    Shader(u32),
    Program(u32),
    VertexArray(u32),
    Buffer(u32),
    Texture(u32),
}

/// The driver's state.
pub struct GlState {
    /// The objects created and not yet deleted.
    pub live: Set<Object>,
    pub current_program: u32,
    pub current_vertex_array: u32,
    pub active_unit: u32,
    /// The 2D texture bound to each texture unit.
    pub unit_textures: Map<u32, u32>,
    /// The value of each uniform, by program and location.
    pub uniforms: Map<(u32, i32), UniformValue>,
}

/// The effect of one call, with the driver's reply to it.
pub open spec fn apply(s: GlState, c: GlCall, r: Reply) -> GlState {
    match c {
        GlCall::CreateShader(_) => GlState { live: s.live.insert(Object::Shader(name_of(r))), ..s },
        GlCall::DeleteShader(h) => GlState { live: s.live.remove(Object::Shader(h)), ..s },
        GlCall::CreateProgram => GlState { live: s.live.insert(Object::Program(name_of(r))), ..s },
        GlCall::DeleteProgram(p) => GlState { live: s.live.remove(Object::Program(p)), ..s },
        GlCall::GenVertexArray => GlState { live: s.live.insert(Object::VertexArray(name_of(r))), ..s },
        GlCall::DeleteVertexArray(v) => GlState { live: s.live.remove(Object::VertexArray(v)), ..s },
        GlCall::GenBuffer => GlState { live: s.live.insert(Object::Buffer(name_of(r))), ..s },
        GlCall::DeleteBuffer(b) => GlState { live: s.live.remove(Object::Buffer(b)), ..s },
        GlCall::GenTexture => GlState { live: s.live.insert(Object::Texture(name_of(r))), ..s },
        GlCall::DeleteTexture(t) => GlState { live: s.live.remove(Object::Texture(t)), ..s },
        GlCall::UseProgram(p) => GlState { current_program: p, ..s },
        GlCall::BindVertexArray(v) => GlState { current_vertex_array: v, ..s },
        GlCall::ActiveTexture(u) => GlState { active_unit: u, ..s },
        GlCall::BindTexture2D(t) => GlState { unit_textures: s.unit_textures.insert(s.active_unit, t), ..s },
        GlCall::Uniform1f(l, b) => GlState {
            uniforms: s.uniforms.insert((s.current_program, l), UniformValue::Float(b)),
            ..s
        },
        GlCall::Uniform1i(l, i) => GlState {
            uniforms: s.uniforms.insert((s.current_program, l), UniformValue::Int(i)),
            ..s
        },
        GlCall::UniformMatrix4fv(l, m) => GlState {
            uniforms: s.uniforms.insert((s.current_program, l), UniformValue::Matrix(m)),
            ..s
        },
        _ => s,
    }
}

/// The effect of a sequence of calls, each with its reply.
pub open spec fn run(s: GlState, ex: Seq<(GlCall, Reply)>) -> GlState
    decreases ex.len(),
{
    if ex.len() == 0 {
        s
    } else {
        run(apply(s, ex[0].0, ex[0].1), ex.drop_first())
    }
}

/// Calls that answer nothing, each with the reply `Done`.
pub open spec fn quiet(calls: Seq<GlCall>) -> Seq<(GlCall, Reply)> {
    calls.map_values(|c: GlCall| (c, Reply::Done))
}

/// The call a step issues (meaningful only for a step that is a call).
pub open spec fn call_of<V>(n: Next<V>) -> GlCall {
    match n {
        Next::Call(c) => c,
        _ => GlCall::GenerateMipmap,
    }
}

/// The calls a session issued, each with the reply it got, when `next` gives
/// the session's step after any sequence of replies and `log` is the replies.
pub open spec fn exchanges<V>(next: spec_fn(Seq<Reply>) -> Next<V>, log: Seq<Reply>) -> Seq<(GlCall, Reply)> {
    Seq::new(log.len(), |i: int| (call_of(next(log.take(i))), log[i]))
}

/// `log` is a whole session: every reply answered a call, and the session
/// has ended.
pub open spec fn completes<V>(next: spec_fn(Seq<Reply>) -> Next<V>, log: Seq<Reply>) -> bool {
    &&& forall|i: int| 0 <= i < log.len() ==> (#[trigger] next(log.take(i))).is_call()
    &&& !next(log).is_call()
}

pub proof fn lemma_run_append(s: GlState, a: Seq<(GlCall, Reply)>, b: Seq<(GlCall, Reply)>)
    ensures
        run(s, a + b) == run(run(s, a), b),
    decreases a.len(),
{
    if a.len() == 0 {
        assert(a + b == b);
    } else {
        assert((a + b).drop_first() == a.drop_first() + b);
        lemma_run_append(apply(s, a[0].0, a[0].1), a.drop_first(), b);
    }
}

} // verus!
