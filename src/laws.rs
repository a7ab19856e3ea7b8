//! Laws of the library, stated over the step functions of its sessions and
//! the model of the driver's state.
use vstd::prelude::*;
use crate::draw::{draw_calls, update_calls, DrawCallView};
use crate::gl::{int_of, name_of, text_of, Failure, GlCall, Next, Primitive, Reply, Stage, GL_TRUE, NO_LOCATION};
use crate::model::{apply, completes, exchanges, lemma_run_append, quiet, run, GlState, Object};
use crate::program::{link_next, link_stages, program_release_calls, ProgramView};
use crate::shader::{compile_next, slot_stage, Shader, ShaderSrc};
use crate::vertices::{upload_next, VertexLayout};
use crate::uniform::{texture_next, RgbaImage, UniformValue};

verus! {

/// What a uniform holds once `v` is sent to it: a texture is seen through its
/// unit.
pub open spec fn stored(v: UniformValue) -> UniformValue {
    match v {
        UniformValue::Texture(t) => UniformValue::Int(t.unit as i32),
        _ => v,
    }
}

/// Updating a uniform of a draw call makes the draw call's program current
/// and changes that program's uniform alone (nothing, where the program has
/// no such active uniform), whatever program was current before.
pub proof fn lemma_update_changes_only_owner(s: GlState, d: DrawCallView, slot: int, v: UniformValue)
    requires
        0 <= slot < d.uniforms.len(),
    ensures
        run(s, quiet(update_calls(d, slot, v))).current_program == d.program.handle,
        run(s, quiet(update_calls(d, slot, v))).live == s.live,
        run(s, quiet(update_calls(d, slot, v))).uniforms == if d.uniforms[slot].location == NO_LOCATION {
            s.uniforms
        } else {
            s.uniforms.insert((d.program.handle, d.uniforms[slot].location), stored(v))
        },
{
    let calls = update_calls(d, slot, v);
    let ex = quiet(calls);
    let s1 = apply(s, ex[0].0, ex[0].1);
    reveal_with_fuel(run, 5);
    assert(ex.drop_first().len() == calls.len() - 1);
    if d.uniforms[slot].location == NO_LOCATION {
        assert(calls.len() == 1);
        assert(run(s, ex) == run(s1, ex.drop_first()));
    } else {
        match v {
            UniformValue::Texture(t) => {
                assert(calls.len() == 4);
                let e1 = ex.drop_first();
                let s2 = apply(s1, e1[0].0, e1[0].1);
                let e2 = e1.drop_first();
                let s3 = apply(s2, e2[0].0, e2[0].1);
                let e3 = e2.drop_first();
                let s4 = apply(s3, e3[0].0, e3[0].1);
                assert(e3.drop_first().len() == 0);
                assert(run(s, ex) == s4);
            },
            _ => {
                assert(calls.len() == 2);
                let e1 = ex.drop_first();
                let s2 = apply(s1, e1[0].0, e1[0].1);
                assert(e1.drop_first().len() == 0);
                assert(run(s, ex) == s2);
            },
        }
    }
}

/// The session that compiles `src` for `stage`, as a function of its replies.
pub open spec fn compile_session(stage: Stage, src: String) -> spec_fn(Seq<Reply>) -> Next<crate::shader::Shader> {
    |l: Seq<Reply>| compile_next(stage, src, l, 0)
}

/// The session that uploads `img` with program `p`, as a function of its replies.
pub open spec fn texture_session(p: u32, img: RgbaImage) -> spec_fn(Seq<Reply>) -> Next<crate::uniform::Texture2D> {
    |l: Seq<Reply>| texture_next(p, img, l, 0)
}

/// Compiling a shader and releasing it at once leaves no object alive that
/// was not alive before; so does a compilation that fails. (The driver names
/// the new shader with a name not in use.)
pub proof fn lemma_shader_leaves_nothing(s: GlState, stage: Stage, src: String, log: Seq<Reply>)
    requires
        completes(compile_session(stage, src), log),
        !s.live.contains(Object::Shader(name_of(log[0]))),
    ensures
        compile_session(stage, src)(log) matches Next::Done(sh) ==> run(
            s,
            exchanges(compile_session(stage, src), log) + quiet(seq![GlCall::DeleteShader(sh.handle)]),
        ).live == s.live,
        compile_session(stage, src)(log) is Fail ==> run(s, exchanges(compile_session(stage, src), log)).live
            == s.live,
{
    let f = compile_session(stage, src);
    let h = name_of(log[0]);
    assert(f(log.take(0)).is_call());
    assert(log.len() >= 4);
    let ok = int_of(log[3]) == GL_TRUE;
    if ok && log.len() > 4 {
        assert(f(log.take(4)).is_call());
        assert(log.take(4)[3] == log[3]);
        assert(false);
    }
    if !ok && log.len() > 6 {
        assert(f(log.take(6)).is_call());
        assert(log.take(6)[3] == log[3]);
        assert(false);
    }
    let ex = exchanges(f, log);
    assert forall|i: int| 1 <= i < log.len() implies #[trigger] log.take(i)[0] == log[0] && log.take(i).len() == i by {}
    assert(ex[0].0 == GlCall::CreateShader(stage));
    let s1 = apply(s, ex[0].0, ex[0].1);
    assert(s1.live == s.live.insert(Object::Shader(h)));
    let tail = ex.drop_first();
    // every later call of the session leaves the live set alone, but the last
    // call of a failed compilation, which deletes the shader
    assert forall|j: int| 0 <= j < tail.len() implies #[trigger] tail[j] == ex[j + 1] by {}
    reveal_with_fuel(run, 7);
    if ok {
        assert(log.take(1)[0] == log[0]);
        assert(log.take(2)[1] == log[1]);
        let e1 = tail;
        let e2 = e1.drop_first();
        let e3 = e2.drop_first();
        assert(e3.drop_first().len() == 0);
        assert(ex[1].0 == GlCall::ShaderSource(h, src));
        assert(ex[2].0 == GlCall::CompileShader(h));
        assert(ex[3].0 == GlCall::GetCompileStatus(h));
        assert(run(s, ex).live == s1.live);
        let rel = quiet(seq![GlCall::DeleteShader(h)]);
        lemma_run_append(s, ex, rel);
        assert(run(run(s, ex), rel).live == s1.live.remove(Object::Shader(h)));
        assert(s1.live.remove(Object::Shader(h)) =~= s.live);
    } else {
        let e1 = tail;
        let e2 = e1.drop_first();
        let e3 = e2.drop_first();
        let e4 = e3.drop_first();
        let e5 = e4.drop_first();
        assert(e5.drop_first().len() == 0);
        assert(log.take(4)[3] == log[3]);
        assert(log.take(5)[3] == log[3]);
        assert(ex[1].0 == GlCall::ShaderSource(h, src));
        assert(ex[2].0 == GlCall::CompileShader(h));
        assert(ex[3].0 == GlCall::GetCompileStatus(h));
        assert(ex[4].0 == GlCall::GetShaderLog(h));
        assert(ex[5].0 == GlCall::DeleteShader(h));
        assert(run(s, ex).live == s1.live.remove(Object::Shader(h)));
        assert(s1.live.remove(Object::Shader(h)) =~= s.live);
    }
}

/// Uploading a texture and releasing it at once leaves no object alive that
/// was not alive before. (The driver names the new texture with a name not in
/// use.)
pub proof fn lemma_texture_leaves_nothing(s: GlState, p: u32, img: RgbaImage, log: Seq<Reply>)
    requires
        completes(texture_session(p, img), log),
        !s.live.contains(Object::Texture(name_of(log[1]))),
    ensures
        texture_session(p, img)(log) matches Next::Done(t) ==> run(
            s,
            exchanges(texture_session(p, img), log) + quiet(seq![GlCall::DeleteTexture(t.handle)]),
        ).live == s.live,
{
    let f = texture_session(p, img);
    assert(f(log.take(0)).is_call());
    assert(f(log.take(5)).is_call() || log.len() <= 5);
    assert(log.len() >= 6);
    if log.len() > 6 {
        assert(f(log.take(6)).is_call());
        assert(false);
    }
    let t = name_of(log[1]);
    let ex = exchanges(f, log);
    assert forall|i: int| 2 <= i < log.len() implies #[trigger] log.take(i)[1] == log[1] && log.take(i).len() == i by {}
    assert(ex[0].0 == GlCall::UseProgram(p));
    assert(ex[1].0 == GlCall::GenTexture);
    assert(ex[2].0 == GlCall::BindTexture2D(t));
    assert(ex[3].0 == GlCall::TexImage2D(img.spec_width(), img.spec_height(), crate::uniform::pixels_vec(img)));
    assert(ex[4].0 == GlCall::GenerateMipmap);
    assert(ex[5].0 == GlCall::BindTexture2D(0));
    reveal_with_fuel(run, 8);
    let e1 = ex.drop_first();
    let e2 = e1.drop_first();
    let e3 = e2.drop_first();
    let e4 = e3.drop_first();
    let e5 = e4.drop_first();
    assert(e5.drop_first().len() == 0);
    assert(run(s, ex).live == s.live.insert(Object::Texture(t)));
    let rel = quiet(seq![GlCall::DeleteTexture(t)]);
    lemma_run_append(s, ex, rel);
    assert(s.live.insert(Object::Texture(t)).remove(Object::Texture(t)) =~= s.live);
}

/// A source that the driver rejects never yields a shader: the compilation
/// fetches the driver's log, deletes the shader, and fails with that log.
pub proof fn lemma_rejected_source_fails(stage: Stage, src: String, log: Seq<Reply>)
    requires
        log.len() >= 4,
        int_of(log[3]) != GL_TRUE,
    ensures
        !(compile_next(stage, src, log, 0) is Done),
        log.len() >= 6 ==> compile_next(stage, src, log, 0) == Next::<Shader>::Fail(
            Failure::Compile(text_of(log[4])),
        ),
{
}

/// Uploading `n` whole vertices to an attribute the program has yields
/// vertices whose count is `n`.
pub proof fn lemma_vertex_count(p: u32, data: Vec<u32>, name: String, layout: VertexLayout, log: Seq<Reply>, n: nat)
    requires
        layout.wf(),
        data@.len() == n * (layout.size as nat),
        log.len() >= 10,
        int_of(log[1]) >= 0,
    ensures
        upload_next(p, data, name, layout, log, 0) matches Next::Done(v) && v.count == n,
{
    let k = layout.size as int;
    assert(data.len() == data@.len());
    assert((n * k) / k == n) by (nonlinear_arith)
        requires
            k >= 1,
    ;
    assert(n <= data@.len()) by (nonlinear_arith)
        requires
            data@.len() == n * k,
            k >= 1,
    ;
}

/// Uploading vertices to an attribute the program does not have fails,
/// naming the attribute.
pub proof fn lemma_absent_attribute_fails(p: u32, data: Vec<u32>, name: String, layout: VertexLayout, log: Seq<Reply>)
    requires
        log.len() >= 2,
        int_of(log[1]) < 0,
    ensures
        upload_next(p, data, name, layout, log, 0) == Next::<crate::vertices::Vertices>::Fail(
            Failure::NoAttribute(name@),
        ),
{
}

/// The number of stages present in `src` from slot `i` on.
pub open spec fn present_from(src: ShaderSrc, i: nat) -> nat
    decreases 5 - i,
{
    if i >= 5 {
        0
    } else {
        (if src.slot(i as int) is Some { 1nat } else { 0nat }) + present_from(src, i + 1)
    }
}

proof fn lemma_stages_count(src: ShaderSrc, p: u32, i: nat, at: int, done: Seq<Shader>, log: Seq<Reply>)
    ensures
        link_stages(src, p, i, at, done, log) matches Next::Done(v) ==> v.shaders.len() == done.len()
            + present_from(src, i),
    decreases 5 - i,
{
    if i < 5 {
        match src.slot(i as int) {
            None => lemma_stages_count(src, p, i + 1, at, done, log),
            Some(text) => match compile_next(slot_stage(i as int), text, log, at) {
                Next::Done(sh) => lemma_stages_count(src, p, i + 1, at + 5, done.push(sh), log),
                _ => {},
            },
        }
    }
}

/// A linked program holds one shader for each stage present in its sources.
pub proof fn lemma_linked_shader_count(src: ShaderSrc, log: Seq<Reply>)
    ensures
        link_next(src, log) matches Next::Done(v) ==> v.shaders.len() == src.present_count(),
{
    if log.len() > 0 && name_of(log[0]) != 0 {
        lemma_stages_count(src, name_of(log[0]), 0, 1, Seq::empty(), log);
        reveal_with_fuel(present_from, 6);
    }
}

/// Vertex and fragment sources that the driver compiles and links give a
/// program with those two shaders, in that order.
pub proof fn lemma_vertex_fragment_link(src: ShaderSrc, log: Seq<Reply>)
    requires
        src.tessellation_control_shader is None,
        src.tessellation_evaluation_shader is None,
        src.geometry_shader is None,
        log.len() == 13,
        name_of(log[0]) != 0,
        int_of(log[4]) == GL_TRUE,
        int_of(log[9]) == GL_TRUE,
        int_of(log[12]) == GL_TRUE,
    ensures
        link_next(src, log) == Next::Done(
            ProgramView {
                handle: name_of(log[0]),
                shaders: seq![
                    Shader { handle: name_of(log[1]), stage: Stage::Vertex },
                    Shader { handle: name_of(log[6]), stage: Stage::Fragment },
                ],
            },
        ),
        src.present_count() == 2,
{
    reveal_with_fuel(link_stages, 6);
    let p = name_of(log[0]);
    let v = Shader { handle: name_of(log[1]), stage: Stage::Vertex };
    let g = Shader { handle: name_of(log[6]), stage: Stage::Fragment };
    assert(compile_next(Stage::Vertex, src.vertex_shader, log, 1) == Next::Done(v));
    assert(compile_next(Stage::Fragment, src.fragment_shader, log, 6) == Next::Done(g));
    assert(Seq::<Shader>::empty().push(v).push(g) == seq![v, g]);
}

proof fn lemma_run_step(s: GlState, ex: Seq<(GlCall, Reply)>, i: int)
    requires
        0 <= i < ex.len(),
    ensures
        run(s, ex.take(i + 1)) == apply(run(s, ex.take(i)), ex[i].0, ex[i].1),
{
    assert(ex.take(i + 1) == ex.take(i) + seq![ex[i]]);
    lemma_run_append(s, ex.take(i), seq![ex[i]]);
    reveal_with_fuel(run, 2);
    assert(seq![ex[i]].drop_first().len() == 0);
}

/// The session that links `src`, as a function of its replies.
pub open spec fn link_session(src: ShaderSrc) -> spec_fn(Seq<Reply>) -> Next<ProgramView> {
    |l: Seq<Reply>| link_next(src, l)
}

/// Linking vertex and fragment sources and releasing the program at once
/// leaves no object alive that was not alive before. (The driver names each
/// new object with a name not in use.)
#[verifier::rlimit(50)]
pub proof fn lemma_program_leaves_nothing(s: GlState, src: ShaderSrc, log: Seq<Reply>)
    requires
        src.tessellation_control_shader is None,
        src.tessellation_evaluation_shader is None,
        src.geometry_shader is None,
        completes(link_session(src), log),
        link_session(src)(log) is Done,
        !s.live.contains(Object::Program(name_of(log[0]))),
        !s.live.contains(Object::Shader(name_of(log[1]))),
        !s.live.contains(Object::Shader(name_of(log[6]))),
        name_of(log[1]) != name_of(log[6]),
    ensures
        link_session(src)(log) matches Next::Done(v) ==> run(
            s,
            exchanges(link_session(src), log) + quiet(program_release_calls(v)),
        ).live == s.live,
{
    let f = link_session(src);
    reveal_with_fuel(link_stages, 6);
    let p = name_of(log[0]);
    let h1 = name_of(log[1]);
    let h2 = name_of(log[6]);
    let vs = src.vertex_shader;
    let fs = src.fragment_shader;
    assert(f(log.take(0)).is_call());
    assert(log.len() > 0);
    assert(p != 0);
    // the session can only have ended once both stages compiled and the
    // program linked, after thirteen replies
    assert forall|i: int| 0 <= i <= log.len() implies #[trigger] log.take(i).len() == i by {}
    assert forall|i: int, k: int| 0 <= k < i <= log.len() implies #[trigger] log.take(i)[k] == log[k] by {}
    if log.len() < 13 {
        if log.len() >= 5 {
            assert(int_of(log[4]) == GL_TRUE);
        }
        if log.len() >= 10 {
            assert(int_of(log[9]) == GL_TRUE);
        }
        assert(false);
    }
    assert(int_of(log[4]) == GL_TRUE) by {
        if int_of(log[4]) != GL_TRUE {
            assert(f(log.take(5)).is_call());
            assert(f(log.take(7)).is_call());
        }
    }
    assert(int_of(log[9]) == GL_TRUE) by {
        if int_of(log[9]) != GL_TRUE {
            assert(f(log.take(12)).is_call());
        }
    }
    if log.len() > 13 {
        assert(f(log.take(13)).is_call());
        assert(false);
    }
    let ex = exchanges(f, log);
    assert(ex[0].0 == GlCall::CreateProgram);
    assert(ex[1].0 == GlCall::CreateShader(Stage::Vertex));
    assert(ex[2].0 == GlCall::ShaderSource(h1, vs));
    assert(ex[3].0 == GlCall::CompileShader(h1));
    assert(ex[4].0 == GlCall::GetCompileStatus(h1));
    assert(ex[5].0 == GlCall::AttachShader(p, h1));
    assert(ex[6].0 == GlCall::CreateShader(Stage::Fragment));
    assert(ex[7].0 == GlCall::ShaderSource(h2, fs));
    assert(ex[8].0 == GlCall::CompileShader(h2));
    assert(ex[9].0 == GlCall::GetCompileStatus(h2));
    assert(ex[10].0 == GlCall::AttachShader(p, h2));
    assert(ex[11].0 == GlCall::LinkProgram(p));
    assert(ex[12].0 == GlCall::GetLinkStatus(p));
    let v = ProgramView {
        handle: p,
        shaders: seq![Shader { handle: h1, stage: Stage::Vertex }, Shader { handle: h2, stage: Stage::Fragment }],
    };
    lemma_vertex_fragment_link(src, log);
    let rel = quiet(program_release_calls(v));
    assert(program_release_calls(v) =~= seq![
        GlCall::DeleteProgram(p),
        GlCall::DeleteShader(h1),
        GlCall::DeleteShader(h2),
    ]);
    let l1 = s.live.insert(Object::Program(p));
    let l2 = l1.insert(Object::Shader(h1));
    let grown = l2.insert(Object::Shader(h2));
    lemma_run_step(s, ex, 0);
    assert(run(s, ex.take(1)).live == l1);
    lemma_run_step(s, ex, 1);
    assert(run(s, ex.take(2)).live == l2);
    lemma_run_step(s, ex, 2);
    lemma_run_step(s, ex, 3);
    lemma_run_step(s, ex, 4);
    lemma_run_step(s, ex, 5);
    assert(run(s, ex.take(6)).live == l2);
    lemma_run_step(s, ex, 6);
    assert(run(s, ex.take(7)).live == grown);
    lemma_run_step(s, ex, 7);
    lemma_run_step(s, ex, 8);
    lemma_run_step(s, ex, 9);
    lemma_run_step(s, ex, 10);
    lemma_run_step(s, ex, 11);
    lemma_run_step(s, ex, 12);
    assert(ex.take(13) == ex);
    assert(run(s, ex).live == grown);
    lemma_run_append(s, ex, rel);
    reveal_with_fuel(run, 4);
    assert(grown.remove(Object::Program(p)).remove(Object::Shader(h1)).remove(Object::Shader(h2)) =~= s.live);
}

/// A program whose stages compile but which the driver cannot link releases
/// its shaders and itself before it fails: no object is left alive that was
/// not alive before. (The driver names each new object with a name not in
/// use.)
#[verifier::rlimit(50)]
pub proof fn lemma_failed_link_leaves_nothing(s: GlState, src: ShaderSrc, log: Seq<Reply>)
    requires
        src.tessellation_control_shader is None,
        src.tessellation_evaluation_shader is None,
        src.geometry_shader is None,
        completes(link_session(src), log),
        log.len() >= 13,
        int_of(log[4]) == GL_TRUE,
        int_of(log[9]) == GL_TRUE,
        int_of(log[12]) != GL_TRUE,
        !s.live.contains(Object::Program(name_of(log[0]))),
        !s.live.contains(Object::Shader(name_of(log[1]))),
        !s.live.contains(Object::Shader(name_of(log[6]))),
        name_of(log[1]) != name_of(log[6]),
    ensures
        link_session(src)(log) == Next::<ProgramView>::Fail(Failure::Link(text_of(log[13]))),
        run(s, exchanges(link_session(src), log)).live == s.live,
{
    let f = link_session(src);
    reveal_with_fuel(link_stages, 6);
    let p = name_of(log[0]);
    let h1 = name_of(log[1]);
    let h2 = name_of(log[6]);
    assert(f(log.take(0)).is_call());
    assert(f(log.take(1)).is_call());
    assert(p != 0);
    assert forall|i: int| 0 <= i <= log.len() implies #[trigger] log.take(i).len() == i by {}
    assert forall|i: int, k: int| 0 <= k < i <= log.len() implies #[trigger] log.take(i)[k] == log[k] by {}
    if log.len() < 17 {
        assert(false);
    }
    if log.len() > 17 {
        assert(f(log.take(17)).is_call());
        assert(false);
    }
    let ex = exchanges(f, log);
    assert(ex[0].0 == GlCall::CreateProgram);
    assert(ex[1].0 == GlCall::CreateShader(Stage::Vertex));
    assert(ex[2].0 == GlCall::ShaderSource(h1, src.vertex_shader));
    assert(ex[3].0 == GlCall::CompileShader(h1));
    assert(ex[4].0 == GlCall::GetCompileStatus(h1));
    assert(ex[5].0 == GlCall::AttachShader(p, h1));
    assert(ex[6].0 == GlCall::CreateShader(Stage::Fragment));
    assert(ex[7].0 == GlCall::ShaderSource(h2, src.fragment_shader));
    assert(ex[8].0 == GlCall::CompileShader(h2));
    assert(ex[9].0 == GlCall::GetCompileStatus(h2));
    assert(ex[10].0 == GlCall::AttachShader(p, h2));
    assert(ex[11].0 == GlCall::LinkProgram(p));
    assert(ex[12].0 == GlCall::GetLinkStatus(p));
    assert(ex[13].0 == GlCall::GetProgramLog(p));
    assert(ex[14].0 == GlCall::DeleteShader(h1));
    assert(ex[15].0 == GlCall::DeleteShader(h2));
    assert(ex[16].0 == GlCall::DeleteProgram(p));
    let l1 = s.live.insert(Object::Program(p));
    let l2 = l1.insert(Object::Shader(h1));
    let grown = l2.insert(Object::Shader(h2));
    lemma_run_step(s, ex, 0);
    assert(run(s, ex.take(1)).live == l1);
    lemma_run_step(s, ex, 1);
    assert(run(s, ex.take(2)).live == l2);
    lemma_run_step(s, ex, 2);
    lemma_run_step(s, ex, 3);
    lemma_run_step(s, ex, 4);
    lemma_run_step(s, ex, 5);
    assert(run(s, ex.take(6)).live == l2);
    lemma_run_step(s, ex, 6);
    assert(run(s, ex.take(7)).live == grown);
    lemma_run_step(s, ex, 7);
    lemma_run_step(s, ex, 8);
    lemma_run_step(s, ex, 9);
    lemma_run_step(s, ex, 10);
    lemma_run_step(s, ex, 11);
    lemma_run_step(s, ex, 12);
    lemma_run_step(s, ex, 13);
    assert(run(s, ex.take(14)).live == grown);
    lemma_run_step(s, ex, 14);
    lemma_run_step(s, ex, 15);
    lemma_run_step(s, ex, 16);
    assert(ex.take(17) == ex);
    assert(grown.remove(Object::Shader(h1)).remove(Object::Shader(h2)).remove(Object::Program(p)) =~= s.live);
}

/// A draw of point vertices sets no patch size.
pub proof fn lemma_points_set_no_patch_size(d: DrawCallView)
    requires
        d.vertices.layout.primitive == Primitive::Points,
    ensures
        forall|i: int| 0 <= i < draw_calls(d).len() ==> !(#[trigger] draw_calls(d)[i] is PatchVertices),
        draw_calls(d) == seq![
            GlCall::UseProgram(d.program.handle),
            GlCall::BindVertexArray(d.vertices.vao),
            GlCall::DrawArrays(Primitive::Points, d.vertices.count),
            GlCall::BindVertexArray(0),
        ],
{
    assert(draw_calls(d) =~= seq![
        GlCall::UseProgram(d.program.handle),
        GlCall::BindVertexArray(d.vertices.vao),
        GlCall::DrawArrays(Primitive::Points, d.vertices.count),
        GlCall::BindVertexArray(0),
    ]);
}

} // verus!
