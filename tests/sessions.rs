use std::collections::{HashMap, HashSet};

use gl_island::draw::DrawCall;
use gl_island::gl::{GlCall, GlError, Primitive, Reply, Scalar, Stage, Step};
use gl_island::program::Program;
use gl_island::shader::{Shader, ShaderSrc};
use gl_island::uniform::{RgbaImage, Texture2D, Uniform, UniformValue};
use gl_island::vertices::{Vec2, Vec3, Vertices};

/// A driver that answers calls as a real one would, and keeps count.
#[derive(Default)]
struct Mock {
    next_name: u32,
    no_program: bool,
    fail_link: bool,
    live: HashSet<(&'static str, u32)>,
    sources: HashMap<u32, String>,
    current_program: u32,
    uniforms: HashMap<(u32, i32), UniformValue>,
    uniform_names: Vec<&'static str>,
    calls: Vec<GlCall>,
}

impl Mock {
    fn fresh(&mut self) -> u32 {
        self.next_name += 1;
        self.next_name
    }

    fn rejects(&self, h: u32) -> bool {
        self.sources.get(&h).map(|s| s.contains("syntax error")).unwrap_or(false)
    }

    fn exec(&mut self, c: &GlCall) -> Reply {
        self.calls.push(c.clone());
        match c {
            GlCall::CreateShader(_) => {
                let h = self.fresh();
                self.live.insert(("shader", h));
                Reply::Name(h)
            }
            GlCall::ShaderSource(h, s) => {
                self.sources.insert(*h, s.clone());
                Reply::Done
            }
            GlCall::GetCompileStatus(h) => Reply::Int(if self.rejects(*h) { 0 } else { 1 }),
            GlCall::GetShaderLog(h) => Reply::Text(if self.rejects(*h) {
                "0:1(1): error: syntax error".to_string()
            } else {
                String::new()
            }),
            GlCall::DeleteShader(h) => {
                self.live.remove(&("shader", *h));
                Reply::Done
            }
            GlCall::CreateProgram => {
                if self.no_program {
                    return Reply::Name(0);
                }
                let p = self.fresh();
                self.live.insert(("program", p));
                Reply::Name(p)
            }
            GlCall::GetLinkStatus(_) => Reply::Int(if self.fail_link { 0 } else { 1 }),
            GlCall::GetProgramLog(_) => Reply::Text("error: unresolved varying".to_string()),
            GlCall::DeleteProgram(p) => {
                self.live.remove(&("program", *p));
                Reply::Done
            }
            GlCall::UseProgram(p) => {
                self.current_program = *p;
                Reply::Done
            }
            GlCall::GetAttribLocation(_, name) => Reply::Int(if name == "position" { 0 } else { -1 }),
            GlCall::GenVertexArray => {
                let v = self.fresh();
                self.live.insert(("vertex array", v));
                Reply::Name(v)
            }
            GlCall::DeleteVertexArray(v) => {
                self.live.remove(&("vertex array", *v));
                Reply::Done
            }
            GlCall::GenBuffer => {
                let b = self.fresh();
                self.live.insert(("buffer", b));
                Reply::Name(b)
            }
            GlCall::DeleteBuffer(b) => {
                self.live.remove(&("buffer", *b));
                Reply::Done
            }
            GlCall::GenTexture => {
                let t = self.fresh();
                self.live.insert(("texture", t));
                Reply::Name(t)
            }
            GlCall::DeleteTexture(t) => {
                self.live.remove(&("texture", *t));
                Reply::Done
            }
            GlCall::GetUniformLocation(_, name) => Reply::Int(
                self.uniform_names.iter().position(|n| n == name).map(|i| i as i32).unwrap_or(-1),
            ),
            GlCall::Uniform1f(l, b) => {
                self.uniforms.insert((self.current_program, *l), UniformValue::Float(*b));
                Reply::Done
            }
            GlCall::Uniform1i(l, i) => {
                self.uniforms.insert((self.current_program, *l), UniformValue::Int(*i));
                Reply::Done
            }
            GlCall::UniformMatrix4fv(l, m) => {
                self.uniforms.insert((self.current_program, *l), UniformValue::Matrix(*m));
                Reply::Done
            }
            _ => Reply::Done,
        }
    }

    fn exec_all(&mut self, calls: &[GlCall]) {
        for c in calls {
            self.exec(c);
        }
    }
}

fn drive<T>(mock: &mut Mock, first: Step<T>, mut step: impl FnMut(Reply) -> Step<T>) -> Result<T, GlError> {
    let mut next = first;
    loop {
        match next {
            Step::Call(c) => {
                let r = mock.exec(&c);
                next = step(r);
            }
            Step::Done(t) => return Ok(t),
            Step::Fail(e) => return Err(e),
        }
    }
}

fn compile(mock: &mut Mock, src: &str, stage: Stage) -> Result<Shader, GlError> {
    let mut s = Shader::new(src, stage);
    let first = s.next();
    drive(mock, first, |r| s.step(r))
}

fn link(mock: &mut Mock, src: ShaderSrc) -> Result<Program, GlError> {
    let mut l = Program::new(src);
    let first = l.next();
    drive(mock, first, |r| l.step(r))
}

fn bind(mock: &mut Mock, name: &str, prog: &Program, v: UniformValue) -> Uniform {
    let mut b = Uniform::new(name, prog, v);
    let first = b.next();
    drive(mock, first, |r| b.step(r)).unwrap()
}

fn texture(mock: &mut Mock, img: RgbaImage, prog: &Program) -> Texture2D {
    let mut u = Texture2D::new(img, prog);
    let first = u.next();
    drive(mock, first, |r| u.step(r)).unwrap()
}

fn pair(vs: &str, fs: &str) -> ShaderSrc {
    ShaderSrc {
        vertex_shader: vs.to_string(),
        fragment_shader: fs.to_string(),
        tessellation_control_shader: None,
        tessellation_evaluation_shader: None,
        geometry_shader: None,
    }
}

fn bits(v: &[f32]) -> Vec<u32> {
    v.iter().map(|f| f.to_bits()).collect()
}

#[test]
fn shader_compiles_with_expected_calls() {
    let mut mock = Mock::default();
    let sh = compile(&mut mock, "void main() {}", Stage::Vertex).unwrap();
    assert_eq!(sh, Shader { handle: 1, stage: Stage::Vertex });
    assert_eq!(
        mock.calls,
        vec![
            GlCall::CreateShader(Stage::Vertex),
            GlCall::ShaderSource(1, "void main() {}".to_string()),
            GlCall::CompileShader(1),
            GlCall::GetCompileStatus(1),
        ]
    );
}

#[test]
fn rejected_source_fails_with_log_and_deletes_shader() {
    let mut mock = Mock::default();
    let err = compile(&mut mock, "syntax error", Stage::Fragment).unwrap_err();
    match err {
        GlError::Compile(log) => assert!(!log.is_empty()),
        other => panic!("unexpected {:?}", other),
    }
    assert_eq!(mock.calls.last(), Some(&GlCall::DeleteShader(1)));
    assert!(mock.live.is_empty());
}

#[test]
fn vertex_fragment_pair_links_with_two_shaders() {
    let mut mock = Mock::default();
    let p = link(&mut mock, pair("vs", "fs")).unwrap();
    assert_eq!(p.id(), 1);
    assert_eq!(p.shaders().len(), 2);
    assert_eq!(p.shaders()[0].stage, Stage::Vertex);
    assert_eq!(p.shaders()[1].stage, Stage::Fragment);
    assert!(mock.calls.contains(&GlCall::AttachShader(1, 2)));
    assert!(mock.calls.contains(&GlCall::AttachShader(1, 3)));
    assert_eq!(mock.calls.last(), Some(&GlCall::GetLinkStatus(1)));
}

#[test]
fn all_stages_link_in_order() {
    let mut mock = Mock::default();
    let src = ShaderSrc {
        vertex_shader: "v".to_string(),
        fragment_shader: "f".to_string(),
        tessellation_control_shader: Some("tc".to_string()),
        tessellation_evaluation_shader: Some("te".to_string()),
        geometry_shader: Some("g".to_string()),
    };
    let p = link(&mut mock, src).unwrap();
    let stages: Vec<Stage> = p.shaders().iter().map(|s| s.stage).collect();
    assert_eq!(
        stages,
        vec![Stage::Vertex, Stage::Fragment, Stage::TessEvaluation, Stage::TessControl, Stage::Geometry]
    );
}

#[test]
fn compile_error_in_second_stage_releases_everything() {
    let mut mock = Mock::default();
    let err = link(&mut mock, pair("vs", "syntax error")).unwrap_err();
    assert!(matches!(err, GlError::Compile(_)));
    assert!(mock.live.is_empty());
    assert_eq!(mock.calls.last(), Some(&GlCall::DeleteProgram(1)));
}

#[test]
fn link_failure_reports_log_and_releases_everything() {
    let mut mock = Mock { fail_link: true, ..Mock::default() };
    let err = link(&mut mock, pair("vs", "fs")).unwrap_err();
    assert_eq!(err, GlError::Link("error: unresolved varying".to_string()));
    assert!(mock.live.is_empty());
}

#[test]
fn zero_program_name_fails() {
    let mut mock = Mock { no_program: true, ..Mock::default() };
    let err = link(&mut mock, pair("vs", "fs")).unwrap_err();
    assert_eq!(err, GlError::NoProgram);
    assert_eq!(mock.calls, vec![GlCall::CreateProgram]);
}

#[test]
fn vertex_count_is_data_over_element_count() {
    let mut mock = Mock::default();
    let p = link(&mut mock, pair("vs", "fs")).unwrap();
    let data = bits(&[0.0; 12]);
    let mut u = Vertices::new::<Vec3>(&p, data.clone(), "position");
    let first = u.next();
    let v = drive(&mut mock, first, |r| u.step(r)).unwrap();
    assert_eq!(v.count, 4);
    assert!(mock.calls.contains(&GlCall::BufferData(data)));
    assert!(mock.calls.contains(&GlCall::VertexAttribPointer(0, 3, Scalar::Float, 0)));
    assert_eq!(mock.calls.last(), Some(&GlCall::BindVertexArray(0)));
}

#[test]
fn absent_attribute_fails_with_name_error() {
    let mut mock = Mock::default();
    let p = link(&mut mock, pair("vs", "fs")).unwrap();
    let mut u = Vertices::new::<Vec2>(&p, bits(&[0.0, 1.0]), "colour");
    let first = u.next();
    let err = drive(&mut mock, first, |r| u.step(r)).unwrap_err();
    assert_eq!(err, GlError::NoAttribute("colour".to_string()));
}

#[test]
fn draw_call_build_failure_releases_program() {
    let mut mock = Mock::default();
    let p = link(&mut mock, pair("vs", "fs")).unwrap();
    let mut b = DrawCall::new::<Vec3>(p, bits(&[0.0; 3]), "normal", Vec::new());
    let first = b.next();
    let err = drive(&mut mock, first, |r| b.step(r)).unwrap_err();
    assert_eq!(err, GlError::NoAttribute("normal".to_string()));
    assert!(mock.live.is_empty());
}

#[test]
fn absent_uniform_is_never_sent() {
    let mut mock = Mock::default();
    let p = link(&mut mock, pair("vs", "fs")).unwrap();
    let mut u = bind(&mut mock, "optimised_out", &p, UniformValue::Int(3));
    assert_eq!(u.location, -1);
    assert!(u.update(UniformValue::Int(4)).is_empty());
    assert_eq!(u.value, UniformValue::Int(4));
    assert!(mock.uniforms.is_empty());
}

#[test]
fn update_writes_only_the_owning_program() {
    let mut mock = Mock { uniform_names: vec!["daytime"], ..Mock::default() };
    let owner = link(&mut mock, pair("vs", "fs")).unwrap();
    let other = link(&mut mock, pair("vs", "fs")).unwrap();
    let u1 = bind(&mut mock, "daytime", &owner, UniformValue::Float(1.0f32.to_bits()));
    let u2 = bind(&mut mock, "daytime", &other, UniformValue::Float(2.0f32.to_bits()));
    let mut b = DrawCall::new::<Vec3>(owner, bits(&[0.0; 12]), "position", vec![u1]);
    let first = b.next();
    let mut dc = drive(&mut mock, first, |r| b.step(r)).unwrap();
    // another program is current now
    mock.exec(&GlCall::UseProgram(other.id()));
    let calls = dc.update(0, UniformValue::Float(10.0f32.to_bits()));
    mock.exec_all(&calls);
    let owner_id = dc.program().id();
    assert_eq!(mock.uniforms[&(owner_id, 0)], UniformValue::Float(10.0f32.to_bits()));
    assert_eq!(mock.uniforms[&(other.id(), 0)], UniformValue::Float(2.0f32.to_bits()));
    assert_eq!(dc.uniforms()[0].value, UniformValue::Float(10.0f32.to_bits()));
    assert_eq!(u2.value, UniformValue::Float(2.0f32.to_bits()));
}

#[test]
fn construct_and_release_leaves_nothing_alive() {
    let mut mock = Mock::default();
    let sh = compile(&mut mock, "void main() {}", Stage::Vertex).unwrap();
    mock.exec_all(&sh.release());
    assert!(mock.live.is_empty());

    let p = link(&mut mock, pair("vs", "fs")).unwrap();
    let img = RgbaImage::new(2, 1, vec![0; 8]).unwrap();
    let t = texture(&mut mock, img, &p);
    assert!(mock.live.contains(&("texture", t.handle)));
    mock.exec_all(&t.release());
    mock.exec_all(&p.release());
    assert!(mock.live.is_empty());
}

#[test]
fn draw_call_release_leaves_nothing_alive() {
    let mut mock = Mock { uniform_names: vec!["water_tex"], ..Mock::default() };
    let p = link(&mut mock, pair("vs", "fs")).unwrap();
    let img = RgbaImage::new(1, 1, vec![1, 2, 3, 4]).unwrap();
    let t = texture(&mut mock, img, &p);
    let u = bind(&mut mock, "water_tex", &p, UniformValue::Texture(t));
    let mut b = DrawCall::new::<Vec3>(p, bits(&[0.0; 12]), "position", vec![u]);
    let first = b.next();
    let dc = drive(&mut mock, first, |r| b.step(r)).unwrap();
    mock.exec_all(&dc.release());
    assert!(mock.live.is_empty());
}

#[test]
fn quad_update_then_draw_issues_one_patch_draw() {
    let mut mock = Mock { uniform_names: vec!["anim_time"], ..Mock::default() };
    let p = link(&mut mock, pair("vs", "fs")).unwrap();
    let u = bind(&mut mock, "anim_time", &p, UniformValue::Float(0.0f32.to_bits()));
    let quad = bits(&[-1.0, 0.0, -1.0, 1.0, 0.0, -1.0, 1.0, 0.0, 1.0, -1.0, 0.0, 1.0]);
    let mut b = DrawCall::new::<Vec3>(p, quad, "position", vec![u]);
    let first = b.next();
    let mut dc = drive(&mut mock, first, |r| b.step(r)).unwrap();
    let pid = dc.program().id();
    let update = dc.update(0, UniformValue::Float(2.5f32.to_bits()));
    assert_eq!(update, vec![GlCall::UseProgram(pid), GlCall::Uniform1f(0, 2.5f32.to_bits())]);
    let draw = dc.draw();
    let vao = dc.vertices().vao;
    assert_eq!(
        draw,
        vec![
            GlCall::UseProgram(pid),
            GlCall::BindVertexArray(vao),
            GlCall::PatchVertices(4),
            GlCall::DrawArrays(Primitive::Patches, 4),
            GlCall::BindVertexArray(0),
        ]
    );
    mock.calls.clear();
    mock.exec_all(&update);
    mock.exec_all(&draw);
    let sets: Vec<&GlCall> = mock.calls.iter().filter(|c| matches!(c, GlCall::Uniform1f(..))).collect();
    assert_eq!(sets, vec![&GlCall::Uniform1f(0, 2.5f32.to_bits())]);
    assert_eq!(mock.uniforms[&(pid, 0)], UniformValue::Float(2.5f32.to_bits()));
}

#[test]
fn root_points_draw_without_patch_size() {
    let mut mock = Mock::default();
    let p = link(&mut mock, pair("vs", "fs")).unwrap();
    let roots: Vec<f32> = (0..500).flat_map(|i| [i as f32 * 0.01, -(i as f32) * 0.01]).collect();
    let mut b = DrawCall::new::<Vec2>(p, bits(&roots), "position", Vec::new());
    let first = b.next();
    let dc = drive(&mut mock, first, |r| b.step(r)).unwrap();
    let draw = dc.draw();
    assert!(draw.contains(&GlCall::DrawArrays(Primitive::Points, 500)));
    assert!(!draw.iter().any(|c| matches!(c, GlCall::PatchVertices(_))));
}

#[test]
fn texture_uniform_sets_unit_then_binds() {
    let mut mock = Mock { uniform_names: vec!["other", "water_tex"], ..Mock::default() };
    let p = link(&mut mock, pair("vs", "fs")).unwrap();
    let img = RgbaImage::new(2, 2, vec![7; 16]).unwrap();
    let t = texture(&mut mock, img, &p);
    assert_eq!(t.unit, 0);
    mock.calls.clear();
    let u = bind(&mut mock, "water_tex", &p, UniformValue::Texture(t));
    assert_eq!(u.location, 1);
    assert_eq!(
        mock.calls,
        vec![
            GlCall::UseProgram(p.id()),
            GlCall::GetUniformLocation(p.id(), "water_tex".to_string()),
            GlCall::Uniform1i(1, 0),
            GlCall::ActiveTexture(0),
            GlCall::BindTexture2D(t.handle),
        ]
    );
}

#[test]
fn texture_upload_calls() {
    let mut mock = Mock::default();
    let p = link(&mut mock, pair("vs", "fs")).unwrap();
    let img = RgbaImage::new(1, 2, vec![9; 8]).unwrap();
    mock.calls.clear();
    let t = texture(&mut mock, img, &p);
    assert_eq!(
        mock.calls,
        vec![
            GlCall::UseProgram(p.id()),
            GlCall::GenTexture,
            GlCall::BindTexture2D(t.handle),
            GlCall::TexImage2D(1, 2, vec![9; 8]),
            GlCall::GenerateMipmap,
            GlCall::BindTexture2D(0),
        ]
    );
}

#[test]
fn matrix_uniform_is_sent_whole() {
    let mut mock = Mock { uniform_names: vec!["model_view_matrix"], ..Mock::default() };
    let p = link(&mut mock, pair("vs", "fs")).unwrap();
    let mut m = [[0u32; 4]; 4];
    for (i, row) in m.iter_mut().enumerate() {
        row[i] = 1.0f32.to_bits();
    }
    let u = bind(&mut mock, "model_view_matrix", &p, UniformValue::Matrix(m));
    assert_eq!(u.send_val(), vec![GlCall::UniformMatrix4fv(0, m)]);
    assert_eq!(mock.uniforms[&(p.id(), 0)], UniformValue::Matrix(m));
}

#[test]
fn image_needs_four_bytes_per_pixel() {
    assert!(RgbaImage::new(2, 2, vec![0; 15]).is_none());
    assert!(RgbaImage::new(0, 5, Vec::new()).is_some());
    let img = RgbaImage::new(3, 1, vec![1; 12]).unwrap();
    assert_eq!((img.width(), img.height(), img.pixels().len()), (3, 1, 12));
}

#[test]
fn release_lists() {
    let v = Vertices { vao: 3, buffer: 4, location: 0, count: 1, layout: gl_island::vertices::layout_of::<Vec2>() };
    assert_eq!(v.release(), vec![GlCall::DeleteVertexArray(3), GlCall::DeleteBuffer(4)]);
    assert_eq!(Shader { handle: 9, stage: Stage::Geometry }.release(), vec![GlCall::DeleteShader(9)]);
}
