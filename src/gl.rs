//! The vocabulary between the library and a graphics driver: the calls the
//! library asks to be issued, the replies a driver gives back, and the shape
//! of each step of a session.
use vstd::prelude::*;

verus! {

/// The driver's boolean "true", as compile and link status queries report it.
pub const GL_TRUE: i32 = 1;

/// The location a driver reports for a name that is not active in a program.
pub const NO_LOCATION: i32 = -1;

/// One point of the graphics pipeline that runs a shader.
#[derive(Clone, Copy, Debug, PartialEq, Eq, Structural)]
pub enum Stage {
    Vertex,
    Fragment,
    TessControl,
    TessEvaluation,
    Geometry,
}

/// How the vertices of a draw are grouped.
#[derive(Clone, Copy, Debug, PartialEq, Eq, Structural)]
pub enum Primitive {
    /// Tessellation patches (their size is set by `PatchVertices`).
    Patches,
    /// Single points.
    Points,
}

/// The scalar type of a vertex attribute's components.
#[derive(Clone, Copy, Debug, PartialEq, Eq, Structural)]
pub enum Scalar {
    Float,
}

/// One call into the graphics driver. Names (handles) are `u32`, locations
/// `i32`; floating-point values travel as their IEEE-754 bit patterns.
#[derive(Clone, Debug, PartialEq)]
pub enum GlCall {
    CreateShader(Stage),
    ShaderSource(u32, String),
    CompileShader(u32),
    /// Query: the shader's compile status (`Reply::Int`).
    GetCompileStatus(u32),
    /// Query: the shader's info log (`Reply::Text`).
    GetShaderLog(u32),
    DeleteShader(u32),
    /// Query: a fresh program name (`Reply::Name`, 0 on failure).
    CreateProgram,
    AttachShader(u32, u32),
    LinkProgram(u32),
    /// Query: the program's link status (`Reply::Int`).
    GetLinkStatus(u32),
    /// Query: the program's info log (`Reply::Text`).
    GetProgramLog(u32),
    DeleteProgram(u32),
    UseProgram(u32),
    /// Query: the location of a vertex attribute (`Reply::Int`).
    GetAttribLocation(u32, String),
    /// Query: a fresh vertex array name (`Reply::Name`).
    GenVertexArray,
    BindVertexArray(u32),
    DeleteVertexArray(u32),
    /// Query: a fresh buffer name (`Reply::Name`).
    GenBuffer,
    BindArrayBuffer(u32),
    DeleteBuffer(u32),
    /// Static upload of the floats (as bit patterns) to the bound array buffer.
    BufferData(Vec<u32>),
    /// Location, component count, component type, stride in bytes; not normalised.
    VertexAttribPointer(u32, i32, Scalar, i32),
    EnableVertexAttribArray(u32),
    /// Query: the location of a uniform (`Reply::Int`, `NO_LOCATION` if absent).
    GetUniformLocation(u32, String),
    Uniform1f(i32, u32),
    Uniform1i(i32, i32),
    /// One 4x4 float matrix, not transposed, in the order of its rows in memory.
    UniformMatrix4fv(i32, [[u32; 4]; 4]),
    /// Query: a fresh texture name (`Reply::Name`).
    GenTexture,
    BindTexture2D(u32),
    /// Width, height and RGBA8 pixels, at mip level 0.
    TexImage2D(u32, u32, Vec<u8>),
    GenerateMipmap,
    /// Makes texture unit `n` the active one.
    ActiveTexture(u32),
    DeleteTexture(u32),
    PatchVertices(i32),
    /// Primitive and vertex count, starting at vertex 0.
    DrawArrays(Primitive, usize),
}

/// What the driver hands back for one call. A call that answers nothing
/// replies `Done`. A reply of another kind than the call asks for reads as
/// zero, or as empty text.
#[derive(Clone, Debug, PartialEq)]
pub enum Reply {
    Done,
    Name(u32),
    Int(i32),
    Text(String),
}

/// Two calls that are the same, payloads compared by their contents.
pub open spec fn same_call(a: GlCall, b: GlCall) -> bool {
    match (a, b) {
        (GlCall::BufferData(x), GlCall::BufferData(y)) => x@ == y@,
        (GlCall::TexImage2D(w, h, x), GlCall::TexImage2D(v, g, y)) => w == v && h == g && x@ == y@,
        _ => a == b,
    }
}

pub open spec fn name_of(r: Reply) -> u32 {
    match r {
        Reply::Name(n) => n,
        _ => 0,
    }
}

pub open spec fn int_of(r: Reply) -> i32 {
    match r {
        Reply::Int(i) => i,
        _ => 0,
    }
}

pub open spec fn text_of(r: Reply) -> Seq<char> {
    match r {
        Reply::Text(s) => s@,
        _ => Seq::empty(),
    }
}

pub fn reply_name(r: &Reply) -> (n: u32)
    ensures
        n == name_of(*r),
{
    match r {
        Reply::Name(n) => *n,
        _ => 0,
    }
}

pub fn reply_int(r: &Reply) -> (i: i32)
    ensures
        i == int_of(*r),
{
    match r {
        Reply::Int(i) => *i,
        _ => 0,
    }
}

pub fn reply_text(r: &Reply) -> (s: String)
    ensures
        s@ == text_of(*r),
{
    match r {
        Reply::Text(s) => s.clone(),
        _ => String::new(),
    }
}

/// A failure that a session reports to its caller.
#[derive(Clone, Debug, PartialEq)]
pub enum GlError {
    /// The driver rejected a shader source; the driver's log.
    Compile(String),
    /// The driver could not link a program; the driver's log.
    Link(String),
    /// The named vertex attribute is not active in the program.
    NoAttribute(String),
    /// The driver handed out no program name.
    NoProgram,
}

/// A failure, as contracts speak of it.
pub enum Failure {
    Compile(Seq<char>),
    Link(Seq<char>),
    NoAttribute(Seq<char>),
    NoProgram,
}

impl GlError {
    pub open spec fn view(self) -> Failure {
        match self {
            GlError::Compile(s) => Failure::Compile(s@),
            GlError::Link(s) => Failure::Link(s@),
            GlError::NoAttribute(s) => Failure::NoAttribute(s@),
            GlError::NoProgram => Failure::NoProgram,
        }
    }
}

/// What a session does next: issue a call and wait for its reply, or end.
#[derive(Debug)]
pub enum Step<T> {
    Call(GlCall),
    Done(T),
    Fail(GlError),
}

/// A step, as contracts speak of it; `V` is the model of the finished value.
pub enum Next<V> {
    Call(GlCall),
    Done(V),
    Fail(Failure),
}

impl<V> Next<V> {
    pub open spec fn is_call(self) -> bool {
        self is Call
    }
}

/// The step `s` is the step `n`, the finished value seen through `view`.
pub open spec fn step_is<T, V>(s: Step<T>, n: Next<V>, view: spec_fn(T) -> V) -> bool {
    match (s, n) {
        (Step::Call(a), Next::Call(b)) => same_call(a, b),
        (Step::Done(x), Next::Done(y)) => view(x) == y,
        (Step::Fail(e), Next::Fail(f)) => e.view() == f,
        _ => false,
    }
}

} // verus!
