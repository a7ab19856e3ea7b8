//! Vertex data: a flat float buffer uploaded and bound to one named attribute
//! of a program, laid out by a vertex kind fixed at the type level.
use vstd::prelude::*;
use crate::program::{program_view, Program};
use crate::gl::{int_of, name_of, reply_int, reply_name, step_is, Failure, GlCall, GlError, Next, Primitive, Reply, Scalar, Step};

verus! {

/// How one vertex is laid out: `size` components of type `scalar`, `stride`
/// bytes apart (0: tightly packed), drawn as `primitive`.
#[derive(Clone, Copy, Debug, PartialEq, Eq, Structural)]
pub struct VertexLayout {
    pub size: i32,
    pub scalar: Scalar,
    pub stride: i32,
    pub primitive: Primitive,
}

impl VertexLayout {
    pub open spec fn wf(self) -> bool {
        1 <= self.size <= 4
    }
}

/// A vertex kind, known at compile time.
pub trait VertexDataType {
    spec fn spec_layout() -> VertexLayout;

    fn element_type() -> (r: Scalar)
        ensures
            r == Self::spec_layout().scalar,
    ;

    fn size() -> (r: i32)
        ensures
            r == Self::spec_layout().size,
            1 <= r <= 4,
    ;

    fn stride() -> (r: i32)
        ensures
            r == Self::spec_layout().stride,
    ;

    fn primitive() -> (r: Primitive)
        ensures
            r == Self::spec_layout().primitive,
    ;
}

/// A vertex of three floats; drawn as tessellation patches.
pub struct Vec3 {}

/// A vertex of two floats; drawn as points.
pub struct Vec2 {}

impl VertexDataType for Vec3 {
    open spec fn spec_layout() -> VertexLayout {
        VertexLayout { size: 3, scalar: Scalar::Float, stride: 0, primitive: Primitive::Patches }
    }

    fn element_type() -> (r: Scalar) {
        Scalar::Float
    }

    fn size() -> (r: i32) {
        3
    }

    fn stride() -> (r: i32) {
        0
    }

    fn primitive() -> (r: Primitive) {
        Primitive::Patches
    }
}

impl VertexDataType for Vec2 {
    open spec fn spec_layout() -> VertexLayout {
        VertexLayout { size: 2, scalar: Scalar::Float, stride: 0, primitive: Primitive::Points }
    }

    fn element_type() -> (r: Scalar) {
        Scalar::Float
    }

    fn size() -> (r: i32) {
        2
    }

    fn stride() -> (r: i32) {
        0
    }

    fn primitive() -> (r: Primitive) {
        Primitive::Points
    }
}

/// The layout of vertex kind `V`.
pub fn layout_of<V: VertexDataType>() -> (l: VertexLayout)
    ensures
        l == V::spec_layout(),
        l.wf(),
{
    VertexLayout { size: V::size(), scalar: V::element_type(), stride: V::stride(), primitive: V::primitive() }
}

/// Uploaded vertices: the vertex array and buffer names, the attribute's
/// location, the number of vertices and their layout.
#[derive(Clone, Copy, Debug, PartialEq, Eq, Structural)]
pub struct Vertices {
    pub vao: u32,
    pub buffer: u32,
    pub location: u32,
    pub count: usize,
    pub layout: VertexLayout,
}

pub open spec fn vertices_view(v: Vertices) -> Vertices {
    v
}

/// What uploading `data` for attribute `name` of program `p` does next, given
/// the replies from position `at` of `log` on: make `p` current and look the
/// attribute up (a negative location fails); create and bind a vertex array
/// and a buffer, upload the data, describe and enable the attribute, and
/// unbind the vertex array.
pub open spec fn upload_next(
    p: u32,
    data: Vec<u32>,
    name: String,
    layout: VertexLayout,
    log: Seq<Reply>,
    at: int,
) -> Next<Vertices> {
    let n = log.len() - at;
    let loc = int_of(log[at + 1]);
    let vao = name_of(log[at + 2]);
    let buffer = name_of(log[at + 4]);
    if n <= 0 {
        Next::Call(GlCall::UseProgram(p))
    } else if n == 1 {
        Next::Call(GlCall::GetAttribLocation(p, name))
    } else if loc < 0 {
        Next::Fail(Failure::NoAttribute(name@))
    } else if n == 2 {
        Next::Call(GlCall::GenVertexArray)
    } else if n == 3 {
        Next::Call(GlCall::BindVertexArray(vao))
    } else if n == 4 {
        Next::Call(GlCall::GenBuffer)
    } else if n == 5 {
        Next::Call(GlCall::BindArrayBuffer(buffer))
    } else if n == 6 {
        Next::Call(GlCall::BufferData(data))
    } else if n == 7 {
        Next::Call(GlCall::VertexAttribPointer(loc as u32, layout.size, layout.scalar, layout.stride))
    } else if n == 8 {
        Next::Call(GlCall::EnableVertexAttribArray(loc as u32))
    } else if n == 9 {
        Next::Call(GlCall::BindVertexArray(0))
    } else {
        Next::Done(
            Vertices {
                vao,
                buffer,
                location: loc as u32,
                count: (data@.len() as int / layout.size as int) as usize,
                layout,
            },
        )
    }
}

pub fn upload_step(
    p: u32,
    data: &Vec<u32>,
    name: &String,
    layout: VertexLayout,
    log: &Vec<Reply>,
    at: usize,
) -> (r: Step<Vertices>)
    requires
        at <= log.len(),
        layout.wf(),
    ensures
        step_is(r, upload_next(p, *data, *name, layout, log@, at as int), |v: Vertices| vertices_view(v)),
{
    let n = log.len() - at;
    if n == 0 {
        return Step::Call(GlCall::UseProgram(p));
    } else if n == 1 {
        return Step::Call(GlCall::GetAttribLocation(p, name.clone()));
    }
    let loc = reply_int(&log[at + 1]);
    if loc < 0 {
        return Step::Fail(GlError::NoAttribute(name.clone()));
    }
    if n == 2 {
        Step::Call(GlCall::GenVertexArray)
    } else if n == 3 {
        Step::Call(GlCall::BindVertexArray(reply_name(&log[at + 2])))
    } else if n == 4 {
        Step::Call(GlCall::GenBuffer)
    } else if n == 5 {
        Step::Call(GlCall::BindArrayBuffer(reply_name(&log[at + 4])))
    } else if n == 6 {
        Step::Call(GlCall::BufferData(data.clone()))
    } else if n == 7 {
        Step::Call(GlCall::VertexAttribPointer(loc as u32, layout.size, layout.scalar, layout.stride))
    } else if n == 8 {
        Step::Call(GlCall::EnableVertexAttribArray(loc as u32))
    } else if n == 9 {
        Step::Call(GlCall::BindVertexArray(0))
    } else {
        Step::Done(
            Vertices {
                vao: reply_name(&log[at + 2]),
                buffer: reply_name(&log[at + 4]),
                location: loc as u32,
                count: data.len() / (layout.size as usize),
                layout,
            },
        )
    }
}

/// An upload in progress: the program's name, the data, the attribute's
/// name, the layout, and the driver's replies so far.
pub struct VerticesUpload {
    pub program: u32,
    pub data: Vec<u32>,
    pub name: String,
    pub layout: VertexLayout,
    pub replies: Vec<Reply>,
}

impl VerticesUpload {
    pub open spec fn wf(self) -> bool {
        self.layout.wf()
    }

    pub open spec fn next_spec(self) -> Next<Vertices> {
        upload_next(self.program, self.data, self.name, self.layout, self.replies@, 0)
    }

    /// The step to take now.
    pub fn next(&self) -> (r: Step<Vertices>)
        requires
            self.wf(),
        ensures
            step_is(r, self.next_spec(), |v: Vertices| vertices_view(v)),
    {
        upload_step(self.program, &self.data, &self.name, self.layout, &self.replies, 0)
    }

    /// Records the reply to the last call and returns the step that follows.
    pub fn step(&mut self, reply: Reply) -> (r: Step<Vertices>)
        requires
            old(self).wf(),
            old(self).next_spec().is_call(),
        ensures
            final(self).wf(),
            final(self).program == old(self).program,
            final(self).data == old(self).data,
            final(self).name == old(self).name,
            final(self).layout == old(self).layout,
            final(self).replies@ == old(self).replies@.push(reply),
            step_is(r, final(self).next_spec(), |v: Vertices| vertices_view(v)),
    {
        self.replies.push(reply);
        self.next()
    }
}

impl Vertices {
    /// Starts uploading `data`, vertices of kind `V`, for the attribute
    /// `location` of `prog`. The data holds whole vertices.
    pub fn new<V: VertexDataType>(prog: &Program, data: Vec<u32>, location: &str) -> (u: VerticesUpload)
        requires
            data@.len() % (V::spec_layout().size as nat) == 0,
        ensures
            u.wf(),
            u.program == program_view(*prog).handle,
            u.data == data,
            u.name@ == location@,
            u.layout == V::spec_layout(),
            u.replies@.len() == 0,
    {
        VerticesUpload { program: prog.id(), data, name: location.to_owned(), layout: layout_of::<V>(), replies: Vec::new() }
    }

    /// The call that makes this vertex array current.
    pub fn usevert(&self) -> (c: GlCall)
        ensures
            c == GlCall::BindVertexArray(self.vao),
    {
        GlCall::BindVertexArray(self.vao)
    }

    /// The call that leaves no vertex array current.
    pub fn stopusevert(&self) -> (c: GlCall)
        ensures
            c == GlCall::BindVertexArray(0),
    {
        GlCall::BindVertexArray(0)
    }

    /// The calls that release the vertex array and its buffer.
    pub fn release(self) -> (r: Vec<GlCall>)
        ensures
            r@ == seq![GlCall::DeleteVertexArray(self.vao), GlCall::DeleteBuffer(self.buffer)],
    {
        vec![GlCall::DeleteVertexArray(self.vao), GlCall::DeleteBuffer(self.buffer)]
    }
}

} // verus!
