//! Draw calls: a program, its vertices and its uniforms, composed into one
//! operation that can be updated and issued.
use vstd::prelude::*;
use crate::gl::{step_is, GlCall, GlError, Next, Primitive, Reply, Step};
use crate::program::{program_release_calls, program_view, Program, ProgramView};
use crate::uniform::{same_kind, send_calls, Uniform, UniformValue};
use crate::vertices::{layout_of, upload_next, upload_step, VertexDataType, VertexLayout, Vertices};

verus! {

/// The number of vertices in one tessellation patch.
pub const PATCH_SIZE: i32 = 4;

/// A program, the vertices it draws and its uniforms, in the caller's order.
#[derive(Debug)]
pub struct DrawCall {
    program: Program,
    vertices: Vertices,
    uniforms: Vec<Uniform>,
}

/// The model of a draw call.
pub struct DrawCallView {
    pub program: ProgramView,
    pub vertices: Vertices,
    pub uniforms: Seq<Uniform>,
}

impl DrawCall {
    pub closed spec fn spec_program(self) -> ProgramView {
        program_view(self.program)
    }

    pub closed spec fn spec_vertices(self) -> Vertices {
        self.vertices
    }

    pub closed spec fn spec_uniforms(self) -> Seq<Uniform> {
        self.uniforms@
    }
}

pub open spec fn draw_call_view(d: DrawCall) -> DrawCallView {
    DrawCallView { program: d.spec_program(), vertices: d.spec_vertices(), uniforms: d.spec_uniforms() }
}

/// The calls that delete the textures held by `us`, in order.
pub open spec fn textures_release_calls(us: Seq<Uniform>) -> Seq<GlCall>
    decreases us.len(),
{
    if us.len() == 0 {
        Seq::empty()
    } else {
        textures_release_calls(us.drop_last()) + match us.last().value {
            UniformValue::Texture(t) => seq![GlCall::DeleteTexture(t.handle)],
            _ => Seq::empty(),
        }
    }
}

fn textures_release(us: &Vec<Uniform>) -> (r: Vec<GlCall>)
    ensures
        r@ == textures_release_calls(us@),
{
    let mut r: Vec<GlCall> = Vec::new();
    let mut i: usize = 0;
    while i < us.len()
        invariant
            i <= us@.len(),
            r@ == textures_release_calls(us@.subrange(0, i as int)),
        decreases us@.len() - i,
    {
        assert(us@.subrange(0, i + 1).drop_last() == us@.subrange(0, i as int));
        match us[i].value {
            UniformValue::Texture(t) => {
                r.push(GlCall::DeleteTexture(t.handle));
            },
            _ => {},
        }
        i = i + 1;
    }
    assert(us@.subrange(0, i as int) == us@);
    r
}

/// The calls that release what a draw call under construction owns: its
/// program and shaders, then the textures its uniforms hold.
pub open spec fn owned_release_calls(p: ProgramView, us: Seq<Uniform>) -> Seq<GlCall> {
    program_release_calls(p) + textures_release_calls(us)
}

/// What building a draw call does next, given the driver's replies `log`:
/// upload the vertices; if that fails, release the program and the uniforms'
/// textures, then fail.
pub open spec fn build_next(
    p: ProgramView,
    data: Vec<u32>,
    name: String,
    layout: VertexLayout,
    us: Seq<Uniform>,
    log: Seq<Reply>,
) -> Next<DrawCallView> {
    match upload_next(p.handle, data, name, layout, log, 0) {
        Next::Call(c) => Next::Call(c),
        Next::Done(v) => Next::Done(DrawCallView { program: p, vertices: v, uniforms: us }),
        Next::Fail(f) => {
            let k = log.len() - 2;
            if k < owned_release_calls(p, us).len() {
                Next::Call(owned_release_calls(p, us)[k])
            } else {
                Next::Fail(f)
            }
        },
    }
}

/// A draw call being built.
pub struct DrawCallBuild {
    pub program: Option<Program>,
    pub data: Vec<u32>,
    pub name: String,
    pub layout: VertexLayout,
    pub uniforms: Vec<Uniform>,
    pub replies: Vec<Reply>,
}

impl DrawCallBuild {
    pub open spec fn spec_program(self) -> ProgramView {
        program_view(self.program.unwrap())
    }

    pub open spec fn spec_uniforms(self) -> Seq<Uniform> {
        self.uniforms@
    }

    /// Still building: it holds the program, and a valid layout.
    pub open spec fn wf(self) -> bool {
        self.layout.wf() && self.program is Some
    }

    pub open spec fn next_spec(self) -> Next<DrawCallView> {
        build_next(self.spec_program(), self.data, self.name, self.layout, self.spec_uniforms(), self.replies@)
    }

    /// The step to take now. Once it is `Done` or `Fail`, the session is
    /// spent: the program and uniforms have moved into the draw call, or
    /// were released.
    pub fn next(&mut self) -> (r: Step<DrawCall>)
        requires
            old(self).wf(),
        ensures
            final(self).data == old(self).data,
            final(self).name == old(self).name,
            final(self).layout == old(self).layout,
            final(self).replies == old(self).replies,
            r is Call ==> final(self).wf() && final(self).spec_program() == old(self).spec_program()
                && final(self).spec_uniforms() == old(self).spec_uniforms(),
            step_is(r, old(self).next_spec(), |d: DrawCall| draw_call_view(d)),
    {
        let p = match &self.program {
            Some(prog) => prog.id(),
            None => 0,
        };
        match upload_step(p, &self.data, &self.name, self.layout, &self.replies, 0) {
            Step::Call(c) => Step::Call(c),
            Step::Done(v) => {
                let program = self.program.take().unwrap();
                let mut uniforms: Vec<Uniform> = Vec::new();
                core::mem::swap(&mut uniforms, &mut self.uniforms);
                Step::Done(DrawCall { program, vertices: v, uniforms })
            },
            Step::Fail(e) => {
                let k = self.replies.len() - 2;
                let mut calls = match &self.program {
                    Some(prog) => prog.release_calls(),
                    None => Vec::new(),
                };
                let mut rest = textures_release(&self.uniforms);
                calls.append(&mut rest);
                if k < calls.len() {
                    Step::Call(calls.remove(k))
                } else {
                    self.program = None;
                    Step::Fail(e)
                }
            },
        }
    }

    /// Records the reply to the last call and returns the step that follows.
    pub fn step(&mut self, reply: Reply) -> (r: Step<DrawCall>)
        requires
            old(self).wf(),
            old(self).next_spec().is_call(),
        ensures
            final(self).data == old(self).data,
            final(self).name == old(self).name,
            final(self).layout == old(self).layout,
            final(self).replies@ == old(self).replies@.push(reply),
            r is Call ==> final(self).wf() && final(self).spec_program() == old(self).spec_program()
                && final(self).spec_uniforms() == old(self).spec_uniforms(),
            step_is(
                r,
                build_next(
                    old(self).spec_program(),
                    old(self).data,
                    old(self).name,
                    old(self).layout,
                    old(self).spec_uniforms(),
                    old(self).replies@.push(reply),
                ),
                |d: DrawCall| draw_call_view(d),
            ),
    {
        self.replies.push(reply);
        self.next()
    }
}

/// The calls that issue a draw: make the program current, bind the vertex
/// array, draw every vertex (as patches of `PATCH_SIZE` vertices, or as
/// points), and unbind the vertex array.
pub open spec fn draw_calls(d: DrawCallView) -> Seq<GlCall> {
    let n = d.vertices.count;
    seq![GlCall::UseProgram(d.program.handle), GlCall::BindVertexArray(d.vertices.vao)] + (
    if d.vertices.layout.primitive == Primitive::Patches {
        seq![GlCall::PatchVertices(PATCH_SIZE), GlCall::DrawArrays(Primitive::Patches, n)]
    } else {
        seq![GlCall::DrawArrays(Primitive::Points, n)]
    }) + seq![GlCall::BindVertexArray(0)]
}

/// The calls that update the uniform in `slot` to `v`: make the program
/// current, then send the value.
pub open spec fn update_calls(d: DrawCallView, slot: int, v: UniformValue) -> Seq<GlCall> {
    seq![GlCall::UseProgram(d.program.handle)] + send_calls(d.uniforms[slot].location, v)
}

/// The calls that release a draw call: its program and shaders, the
/// uniforms' textures, then the vertex array and its buffer.
pub open spec fn draw_release_calls(d: DrawCallView) -> Seq<GlCall> {
    owned_release_calls(d.program, d.uniforms) + seq![
        GlCall::DeleteVertexArray(d.vertices.vao),
        GlCall::DeleteBuffer(d.vertices.buffer),
    ]
}

impl DrawCall {
    /// Starts building a draw call of vertex kind `V` from `program`, the
    /// vertex `data` for attribute `location_name`, and `uniforms`, each
    /// already bound to `program`. The data holds whole vertices.
    pub fn new<V: VertexDataType>(
        program: Program,
        data: Vec<u32>,
        location_name: &str,
        uniforms: Vec<Uniform>,
    ) -> (b: DrawCallBuild)
        requires
            data@.len() % (V::spec_layout().size as nat) == 0,
        ensures
            b.wf(),
            b.spec_program() == program_view(program),
            b.data == data,
            b.name@ == location_name@,
            b.layout == V::spec_layout(),
            b.spec_uniforms() == uniforms@,
            b.replies@.len() == 0,
    {
        DrawCallBuild {
            program: Some(program),
            data,
            name: location_name.to_owned(),
            layout: layout_of::<V>(),
            uniforms,
            replies: Vec::new(),
        }
    }

    /// Replaces the value of the uniform in `slot` by `newval`, of the same
    /// kind, and returns the calls that send it.
    pub fn update(&mut self, slot: usize, newval: UniformValue) -> (r: Vec<GlCall>)
        requires
            slot < draw_call_view(*old(self)).uniforms.len(),
            same_kind(draw_call_view(*old(self)).uniforms[slot as int].value, newval),
        ensures
            draw_call_view(*final(self)).program == draw_call_view(*old(self)).program,
            draw_call_view(*final(self)).vertices == draw_call_view(*old(self)).vertices,
            draw_call_view(*final(self)).uniforms == draw_call_view(*old(self)).uniforms.update(
                slot as int,
                Uniform { location: draw_call_view(*old(self)).uniforms[slot as int].location, value: newval },
            ),
            r@ == update_calls(draw_call_view(*old(self)), slot as int, newval),
    {
        let mut r: Vec<GlCall> = vec![self.program.useprog()];
        let mut u = self.uniforms[slot];
        let mut sent = u.update(newval);
        self.uniforms.set(slot, u);
        r.append(&mut sent);
        r
    }

    /// The calls that issue this draw.
    pub fn draw(&self) -> (r: Vec<GlCall>)
        ensures
            r@ == draw_calls(draw_call_view(*self)),
    {
        let mut r: Vec<GlCall> = vec![self.program.useprog(), self.vertices.usevert()];
        let n = self.vertices.count;
        match self.vertices.layout.primitive {
            Primitive::Patches => {
                r.push(GlCall::PatchVertices(PATCH_SIZE));
                r.push(GlCall::DrawArrays(Primitive::Patches, n));
            },
            Primitive::Points => {
                r.push(GlCall::DrawArrays(Primitive::Points, n));
            },
        }
        r.push(self.vertices.stopusevert());
        r
    }

    /// The calls that release everything this draw call owns.
    pub fn release(self) -> (r: Vec<GlCall>)
        ensures
            r@ == draw_release_calls(draw_call_view(self)),
    {
        let mut r = self.program.release_calls();
        let mut t = textures_release(&self.uniforms);
        let mut v = self.vertices.release();
        r.append(&mut t);
        r.append(&mut v);
        r
    }

    pub fn program(&self) -> (p: &Program)
        ensures
            program_view(*p) == draw_call_view(*self).program,
    {
        &self.program
    }

    pub fn vertices(&self) -> (v: Vertices)
        ensures
            v == draw_call_view(*self).vertices,
    {
        self.vertices
    }

    pub fn uniforms(&self) -> (us: &Vec<Uniform>)
        ensures
            us@ == draw_call_view(*self).uniforms,
    {
        &self.uniforms
    }
}

} // verus!
