//! Uniforms and textures: a named pipeline variable bound to a typed value,
//! and the 2D textures such a value can name.
use vstd::prelude::*;
use crate::gl::{int_of, name_of, reply_int, reply_name, step_is, GlCall, Next, Reply, Step, NO_LOCATION};
use crate::program::{program_view, Program};

verus! {

/// The texture unit that a texture is bound to when a uniform names it.
pub const TEXTURE_UNIT: u32 = 0;

/// A decoded image: `width` x `height` pixels of 8-bit RGBA, row after row.
#[derive(Clone, Debug)]
pub struct RgbaImage {
    width: u32,
    height: u32,
    pixels: Vec<u8>,
}

impl RgbaImage {
    pub closed spec fn spec_width(self) -> u32 {
        self.width
    }

    pub closed spec fn spec_height(self) -> u32 {
        self.height
    }

    pub closed spec fn spec_pixels(self) -> Seq<u8> {
        self.pixels@
    }

    /// Holds exactly four bytes per pixel.
    pub open spec fn wf(self) -> bool {
        self.spec_pixels().len() == 4 * (self.spec_width() as int) * (self.spec_height() as int)
    }

    /// An image of `width` x `height` pixels, if `pixels` holds four bytes for
    /// each of them.
    pub fn new(width: u32, height: u32, pixels: Vec<u8>) -> (r: Option<RgbaImage>)
        ensures
            (r is Some) == (pixels@.len() == 4 * (width as int) * (height as int)),
            r matches Some(img) ==> img.wf() && img.spec_width() == width && img.spec_height() == height
                && img.spec_pixels() == pixels@,
    {
        let len = pixels.len();
        let w = width as u64;
        let h = height as u64;
        assert((w as int) * (h as int) <= 0xffff_ffff * 0xffff_ffff) by (nonlinear_arith)
            requires
                w <= 0xffff_ffff,
                h <= 0xffff_ffff,
        ;
        let area = w * h;
        assert(4 * (width as int) * (height as int) == 4 * (area as int)) by (nonlinear_arith)
            requires
                area as int == (w as int) * (h as int),
                w == width,
                h == height,
        ;
        if area > (usize::MAX / 4) as u64 {
            assert(4 * (area as int) > usize::MAX);
            return None;
        }
        if len == 4 * (area as usize) {
            Some(RgbaImage { width, height, pixels })
        } else {
            None
        }
    }

    pub fn width(&self) -> (w: u32)
        ensures
            w == self.spec_width(),
    {
        self.width
    }

    pub fn height(&self) -> (h: u32)
        ensures
            h == self.spec_height(),
    {
        self.height
    }

    pub fn pixels(&self) -> (p: &Vec<u8>)
        ensures
            p@ == self.spec_pixels(),
    {
        &self.pixels
    }
}

/// A 2D texture object and the texture unit it is used at.
#[derive(Clone, Copy, Debug, PartialEq, Eq, Structural)]
pub struct Texture2D {
    pub handle: u32,
    pub unit: u32,
}

pub open spec fn texture_view(t: Texture2D) -> Texture2D {
    t
}

/// What uploading `img` does next, with program `p`, given the replies from
/// position `at` of `log` on: make `p` current, create and bind a texture,
/// upload the pixels at level 0, generate the mip chain, and unbind it.
pub open spec fn texture_next(p: u32, img: RgbaImage, log: Seq<Reply>, at: int) -> Next<Texture2D> {
    let n = log.len() - at;
    let t = name_of(log[at + 1]);
    if n <= 0 {
        Next::Call(GlCall::UseProgram(p))
    } else if n == 1 {
        Next::Call(GlCall::GenTexture)
    } else if n == 2 {
        Next::Call(GlCall::BindTexture2D(t))
    } else if n == 3 {
        Next::Call(GlCall::TexImage2D(img.spec_width(), img.spec_height(), pixels_vec(img)))
    } else if n == 4 {
        Next::Call(GlCall::GenerateMipmap)
    } else if n == 5 {
        Next::Call(GlCall::BindTexture2D(0))
    } else {
        Next::Done(Texture2D { handle: t, unit: TEXTURE_UNIT })
    }
}

/// The pixel buffer of an image, as the upload call carries it.
pub closed spec fn pixels_vec(img: RgbaImage) -> Vec<u8> {
    img.pixels
}

pub proof fn lemma_pixels_vec(img: RgbaImage)
    ensures
        pixels_vec(img)@ == img.spec_pixels(),
{
}

pub fn texture_step(p: u32, img: &RgbaImage, log: &Vec<Reply>, at: usize) -> (r: Step<Texture2D>)
    requires
        at <= log.len(),
    ensures
        step_is(r, texture_next(p, *img, log@, at as int), |t: Texture2D| texture_view(t)),
{
    let n = log.len() - at;
    if n == 0 {
        Step::Call(GlCall::UseProgram(p))
    } else if n == 1 {
        Step::Call(GlCall::GenTexture)
    } else if n == 2 {
        Step::Call(GlCall::BindTexture2D(reply_name(&log[at + 1])))
    } else if n == 3 {
        proof {
            lemma_pixels_vec(*img);
        }
        Step::Call(GlCall::TexImage2D(img.width, img.height, img.pixels.clone()))
    } else if n == 4 {
        Step::Call(GlCall::GenerateMipmap)
    } else if n == 5 {
        Step::Call(GlCall::BindTexture2D(0))
    } else {
        Step::Done(Texture2D { handle: reply_name(&log[at + 1]), unit: TEXTURE_UNIT })
    }
}

/// A texture upload in progress.
pub struct TextureUpload {
    pub program: u32,
    pub image: RgbaImage,
    pub replies: Vec<Reply>,
}

impl TextureUpload {
    pub open spec fn next_spec(self) -> Next<Texture2D> {
        texture_next(self.program, self.image, self.replies@, 0)
    }

    /// The step to take now.
    pub fn next(&self) -> (r: Step<Texture2D>)
        ensures
            step_is(r, self.next_spec(), |t: Texture2D| texture_view(t)),
    {
        texture_step(self.program, &self.image, &self.replies, 0)
    }

    /// Records the reply to the last call and returns the step that follows.
    pub fn step(&mut self, reply: Reply) -> (r: Step<Texture2D>)
        requires
            old(self).next_spec().is_call(),
        ensures
            final(self).program == old(self).program,
            final(self).image == old(self).image,
            final(self).replies@ == old(self).replies@.push(reply),
            step_is(r, final(self).next_spec(), |t: Texture2D| texture_view(t)),
    {
        self.replies.push(reply);
        self.next()
    }
}

impl Texture2D {
    /// Starts uploading `img` as a texture, with `prog` current.
    pub fn new(img: RgbaImage, prog: &Program) -> (u: TextureUpload)
        requires
            img.wf(),
        ensures
            u.program == program_view(*prog).handle,
            u.image == img,
            u.replies@.len() == 0,
    {
        TextureUpload { program: prog.id(), image: img, replies: Vec::new() }
    }

    /// The calls that release this texture.
    pub fn release(self) -> (r: Vec<GlCall>)
        ensures
            r@ == seq![GlCall::DeleteTexture(self.handle)],
    {
        vec![GlCall::DeleteTexture(self.handle)]
    }
}

/// The value of a uniform, of one of the kinds a pipeline variable can have.
/// Floats are held as their IEEE-754 bit patterns.
#[derive(Clone, Copy, Debug, PartialEq, Eq)]
pub enum UniformValue {
    Float(u32),
    Int(i32),
    Matrix([[u32; 4]; 4]),
    Texture(Texture2D),
}

/// `a` and `b` are values of the same kind.
pub open spec fn same_kind(a: UniformValue, b: UniformValue) -> bool {
    match (a, b) {
        (UniformValue::Float(_), UniformValue::Float(_)) => true,
        (UniformValue::Int(_), UniformValue::Int(_)) => true,
        (UniformValue::Matrix(_), UniformValue::Matrix(_)) => true,
        (UniformValue::Texture(_), UniformValue::Texture(_)) => true,
        _ => false,
    }
}

/// The calls that send `v` to the uniform at `location` of the current
/// program: none where the location is absent; for a texture, its unit into
/// the uniform, then that unit made active and the texture bound to it.
pub open spec fn send_calls(location: i32, v: UniformValue) -> Seq<GlCall> {
    if location == NO_LOCATION {
        Seq::empty()
    } else {
        match v {
            UniformValue::Float(b) => seq![GlCall::Uniform1f(location, b)],
            UniformValue::Int(i) => seq![GlCall::Uniform1i(location, i)],
            UniformValue::Matrix(m) => seq![GlCall::UniformMatrix4fv(location, m)],
            UniformValue::Texture(t) => seq![
                GlCall::Uniform1i(location, t.unit as i32),
                GlCall::ActiveTexture(t.unit),
                GlCall::BindTexture2D(t.handle),
            ],
        }
    }
}

pub fn send_value(location: i32, v: UniformValue) -> (r: Vec<GlCall>)
    ensures
        r@ == send_calls(location, v),
{
    if location == NO_LOCATION {
        return Vec::new();
    }
    match v {
        UniformValue::Float(b) => vec![GlCall::Uniform1f(location, b)],
        UniformValue::Int(i) => vec![GlCall::Uniform1i(location, i)],
        UniformValue::Matrix(m) => vec![GlCall::UniformMatrix4fv(location, m)],
        UniformValue::Texture(t) => vec![
            GlCall::Uniform1i(location, t.unit as i32),
            GlCall::ActiveTexture(t.unit),
            GlCall::BindTexture2D(t.handle),
        ],
    }
}

/// A uniform: its location in its program (`NO_LOCATION` when the program
/// has no such active uniform) and the value last sent.
#[derive(Clone, Copy, Debug, PartialEq, Eq)]
pub struct Uniform {
    pub location: i32,
    pub value: UniformValue,
}

pub open spec fn uniform_view(u: Uniform) -> Uniform {
    u
}

/// What binding uniform `name` of program `p` to `value` does next, given the
/// replies from position `at` of `log` on: make `p` current, look the name up,
/// then send the value there.
pub open spec fn bind_next(p: u32, name: String, value: UniformValue, log: Seq<Reply>, at: int) -> Next<Uniform> {
    let n = log.len() - at;
    let loc = int_of(log[at + 1]);
    if n <= 0 {
        Next::Call(GlCall::UseProgram(p))
    } else if n == 1 {
        Next::Call(GlCall::GetUniformLocation(p, name))
    } else if n - 2 < send_calls(loc, value).len() {
        Next::Call(send_calls(loc, value)[n - 2])
    } else {
        Next::Done(Uniform { location: loc, value })
    }
}

pub fn bind_step(p: u32, name: &String, value: UniformValue, log: &Vec<Reply>, at: usize) -> (r: Step<Uniform>)
    requires
        at <= log.len(),
    ensures
        step_is(r, bind_next(p, *name, value, log@, at as int), |u: Uniform| uniform_view(u)),
{
    let n = log.len() - at;
    if n == 0 {
        return Step::Call(GlCall::UseProgram(p));
    } else if n == 1 {
        return Step::Call(GlCall::GetUniformLocation(p, name.clone()));
    }
    let loc = reply_int(&log[at + 1]);
    let mut calls = send_value(loc, value);
    if n - 2 < calls.len() {
        Step::Call(calls.remove(n - 2))
    } else {
        Step::Done(Uniform { location: loc, value })
    }
}

/// A uniform binding in progress.
pub struct UniformBind {
    pub program: u32,
    pub name: String,
    pub value: UniformValue,
    pub replies: Vec<Reply>,
}

impl UniformBind {
    pub open spec fn next_spec(self) -> Next<Uniform> {
        bind_next(self.program, self.name, self.value, self.replies@, 0)
    }

    /// The step to take now.
    pub fn next(&self) -> (r: Step<Uniform>)
        ensures
            step_is(r, self.next_spec(), |u: Uniform| uniform_view(u)),
    {
        bind_step(self.program, &self.name, self.value, &self.replies, 0)
    }

    /// Records the reply to the last call and returns the step that follows.
    pub fn step(&mut self, reply: Reply) -> (r: Step<Uniform>)
        requires
            old(self).next_spec().is_call(),
        ensures
            final(self).program == old(self).program,
            final(self).name == old(self).name,
            final(self).value == old(self).value,
            final(self).replies@ == old(self).replies@.push(reply),
            step_is(r, final(self).next_spec(), |u: Uniform| uniform_view(u)),
    {
        self.replies.push(reply);
        self.next()
    }
}

impl Uniform {
    /// Starts binding the uniform `name` of `prog` to `val`.
    pub fn new(name: &str, prog: &Program, val: UniformValue) -> (b: UniformBind)
        ensures
            b.program == program_view(*prog).handle,
            b.name@ == name@,
            b.value == val,
            b.replies@.len() == 0,
    {
        UniformBind { program: prog.id(), name: name.to_owned(), value: val, replies: Vec::new() }
    }

    /// The calls that send the held value; the owning program must be current.
    pub fn send_val(&self) -> (r: Vec<GlCall>)
        ensures
            r@ == send_calls(self.location, self.value),
    {
        send_value(self.location, self.value)
    }

    /// Replaces the value by `newval`, of the same kind, and returns the
    /// calls that send it; the owning program must be current.
    pub fn update(&mut self, newval: UniformValue) -> (r: Vec<GlCall>)
        requires
            same_kind(old(self).value, newval),
        ensures
            final(self).location == old(self).location,
            final(self).value == newval,
            r@ == send_calls(old(self).location, newval),
    {
        self.value = newval;
        self.send_val()
    }
}

} // verus!
