use vstd::prelude::*;
use vstd::string::StringSliceAdditionalSpecFns;
use vstd::utf8::{decode_utf8, valid_utf8};

use crate::resources::FBO;

verus! {

/// Why a shader program could not be built.
#[derive(Debug)]
pub enum ShaderError {
    /// A stage failed to compile; holds the driver's log.
    CompilationError(String),
    /// The stages failed to link; holds the driver's log.
    LinkingError(String),
    /// The driver's log was not UTF-8; holds its bytes.
    Utf8Error(Vec<u8>),
    /// A source held a NUL byte at this offset.
    NulError(usize),
}

/// Which step of building a program a driver log comes from.
#[derive(Clone, Copy, Debug, PartialEq, Eq, Structural)]
pub enum BuildStep {
    Compile,
    Link,
}

/// The two programmable stages of a pass.
#[derive(Clone, Copy, Debug, PartialEq, Eq, Structural)]
pub enum ShaderStage {
    Vertex,
    Fragment,
}

/// Directory that holds the shader sources.
pub open spec fn shader_dir() -> Seq<char> {
    "assets/shaders/"@
}

/// File-name suffix of a stage's source.
pub open spec fn stage_suffix(stage: ShaderStage) -> Seq<char> {
    match stage {
        ShaderStage::Vertex => "_vs.glsl"@,
        ShaderStage::Fragment => "_fs.glsl"@,
    }
}

/// Relies on `format!` with `{}` on a `&str`: the pieces are written one after the other.
#[verifier::external_body]
fn join_path(dir: &str, name: &str, suffix: &str) -> (r: String)
    ensures
        r@ == dir@ + name@ + suffix@,
{
    format!("{}{}{}", dir, name, suffix)
}

/// Path of the source of one stage of the pass called `name`.
pub fn source_path(name: &str, stage: ShaderStage) -> (r: String)
    ensures
        r@ == shader_dir() + name@ + stage_suffix(stage),
{
    proof {
        reveal_strlit("assets/shaders/");
        reveal_strlit("_vs.glsl");
        reveal_strlit("_fs.glsl");
    }
    let suffix = match stage {
        ShaderStage::Vertex => "_vs.glsl",
        ShaderStage::Fragment => "_fs.glsl",
    };
    join_path("assets/shaders/", name, suffix)
}

/// Relies on `String::from_utf8`: valid UTF-8 becomes the string it encodes; otherwise the
/// error gives the bytes back (`FromUtf8Error::into_bytes`).
#[verifier::external_body]
fn string_from_utf8(bytes: Vec<u8>) -> (r: Result<String, Vec<u8>>)
    ensures
        r is Ok <==> valid_utf8(bytes@),
        r matches Ok(s) ==> s@ == decode_utf8(bytes@),
        r matches Err(b) ==> b@ == bytes@,
{
    String::from_utf8(bytes).map_err(|e| e.into_bytes())
}

/// Index of the first NUL byte of `bytes`, if any.
pub open spec fn first_nul(bytes: Seq<u8>) -> Option<int> {
    if exists|i: int| 0 <= i < bytes.len() && bytes[i] == 0 {
        Some(choose|i: int| 0 <= i < bytes.len() && bytes[i] == 0 && forall|j: int| 0 <= j < i ==> bytes[j] != 0)
    } else {
        None
    }
}

impl ShaderError {
    /// The error for a failed build step, from the driver's log as decoded.
    pub fn from_log(step: BuildStep, log: Result<String, Vec<u8>>) -> (r: ShaderError)
        ensures
            match (step, log) {
                (BuildStep::Compile, Ok(s)) => r matches ShaderError::CompilationError(t) && t@ == s@,
                (BuildStep::Link, Ok(s)) => r matches ShaderError::LinkingError(t) && t@ == s@,
                (_, Err(b)) => r matches ShaderError::Utf8Error(c) && c@ == b@,
            },
    {
        match log {
            Ok(s) => match step {
                BuildStep::Compile => ShaderError::CompilationError(s),
                BuildStep::Link => ShaderError::LinkingError(s),
            },
            Err(b) => ShaderError::Utf8Error(b),
        }
    }

    /// Whether this error says that a stage failed to compile.
    pub fn is_compilation_error(&self) -> (r: bool)
        ensures
            r == (self is CompilationError),
    {
        matches!(self, ShaderError::CompilationError(_))
    }

    /// Whether this error says that the stages failed to link.
    pub fn is_linking_error(&self) -> (r: bool)
        ensures
            r == (self is LinkingError),
    {
        matches!(self, ShaderError::LinkingError(_))
    }
}

/// A source can be handed to the driver only if it holds no NUL byte; the error gives the
/// offset of the first one.
pub fn check_source(source: &str) -> (r: Result<(), ShaderError>)
    ensures
        match first_nul(source.spec_bytes()) {
            None => r is Ok,
            Some(i) => r matches Err(ShaderError::NulError(j)) && j == i,
        },
{
    let bytes = source.as_bytes();
    let mut i: usize = 0;
    while i < bytes.len()
        invariant
            0 <= i <= bytes@.len(),
            bytes@ == source.spec_bytes(),
            forall|j: int| 0 <= j < i ==> bytes@[j] != 0,
        decreases bytes@.len() - i,
    {
        if bytes[i] == 0 {
            assert(first_nul(bytes@) == Some(i as int)) by {
                let w = choose|w: int|
                    0 <= w < bytes@.len() && bytes@[w] == 0 && forall|j: int| 0 <= j < w ==> bytes@[j] != 0;
                if w < i {
                } else if w > i {
                    assert(bytes@[i as int] == 0);
                }
            }
            return Err(ShaderError::NulError(i));
        }
        i += 1;
    }
    Ok(())
}

/// The outcome of compiling one stage: the driver's status (1 for success), the stage's
/// handle, and its log.
pub fn stage_result(shader_id: u32, status: i32, log: Vec<u8>) -> (r: Result<u32, ShaderError>)
    ensures
        status == 1 ==> r == Ok::<u32, ShaderError>(shader_id),
        status != 1 && valid_utf8(log@) ==> (r matches Err(ShaderError::CompilationError(t)) && t@ == decode_utf8(log@)),
        status != 1 && !valid_utf8(log@) ==> (r matches Err(ShaderError::Utf8Error(b)) && b@ == log@),
{
    if status == 1 {
        Ok(shader_id)
    } else {
        Err(ShaderError::from_log(BuildStep::Compile, string_from_utf8(log)))
    }
}

/// The outcome of linking a program: the driver's status (1 for success), the program's
/// handle, and its log.
pub fn link_result(program_id: u32, status: i32, log: Vec<u8>) -> (r: Result<u32, ShaderError>)
    ensures
        status == 1 ==> r == Ok::<u32, ShaderError>(program_id),
        status != 1 && valid_utf8(log@) ==> (r matches Err(ShaderError::LinkingError(t)) && t@ == decode_utf8(log@)),
        status != 1 && !valid_utf8(log@) ==> (r matches Err(ShaderError::Utf8Error(b)) && b@ == log@),
{
    if status == 1 {
        Ok(program_id)
    } else {
        Err(ShaderError::from_log(BuildStep::Link, string_from_utf8(log)))
    }
}

/// The two stages to link when both compiled; else the first failure, the vertex stage's
/// before the fragment stage's.
pub fn link_inputs(vertex: Result<u32, ShaderError>, fragment: Result<u32, ShaderError>) -> (r:
    Result<(u32, u32), ShaderError>)
    ensures
        match (vertex, fragment) {
            (Ok(v), Ok(f)) => r == Ok::<(u32, u32), ShaderError>((v, f)),
            (Err(e), _) => r == Err::<(u32, u32), ShaderError>(e),
            (Ok(_), Err(e)) => r == Err::<(u32, u32), ShaderError>(e),
        },
{
    match vertex {
        Err(e) => Err(e),
        Ok(v) => match fragment {
            Err(e) => Err(e),
            Ok(f) => Ok((v, f)),
        },
    }
}

/// A vertex and fragment program pair, optionally rendering into its own framebuffer.
/// `id` is 0 until a program has been linked.
pub struct Shader {
    pub id: u32,
    pub fbo: Option<FBO>,
    pub file_name: String,
}

impl Shader {
    pub fn new_with_fbo(file_name: String, fbo: FBO) -> (r: Self)
        ensures
            r.id == 0,
            r.fbo == Some(fbo),
            r.file_name@ == file_name@,
    {
        Shader { id: 0, fbo: Some(fbo), file_name }
    }

    pub fn new_without_fbo(file_name: String) -> (r: Self)
        ensures
            r.id == 0,
            r.fbo.is_none(),
            r.file_name@ == file_name@,
    {
        Shader { id: 0, fbo: None, file_name }
    }

    /// Whether a working program is installed.
    pub fn has_program(&self) -> (r: bool)
        ensures
            r == (self.id != 0),
    {
        self.id != 0
    }

    /// A failed build is fatal only when there is no earlier program to keep using.
    pub fn failure_is_fatal(&self) -> (r: bool)
        ensures
            r == (self.id == 0),
    {
        self.id == 0
    }

    /// Installs the outcome of building the program from its two sources. A new program
    /// replaces the old one; on failure the old program stays in place and the error is
    /// handed back.
    pub fn compile(&mut self, program: Result<u32, ShaderError>) -> (r: Result<u32, ShaderError>)
        ensures
            final(self).fbo == old(self).fbo,
            final(self).file_name@ == old(self).file_name@,
            match program {
                Ok(p) => final(self).id == p && r == Ok::<u32, ShaderError>(p),
                Err(e) => final(self).id == old(self).id && r == Err::<u32, ShaderError>(e),
            },
    {
        match program {
            Ok(p) => {
                self.id = p;
                Ok(p)
            },
            Err(e) => Err(e),
        }
    }
}

} // verus!
