use vstd::prelude::*;

verus! {

/// The slot that the fragment shader's colour output is bound to before linking.
pub const OUTPUT_COLOR_SLOT: u32 = 0;

#[derive(Clone, Copy, Debug, PartialEq, Eq, Structural)]
pub enum ShaderStage {
    Vertex,
    Fragment,
}

/// What to do with a failed compile or link.
#[derive(Clone, Copy, Debug, PartialEq, Eq, Structural)]
pub enum ShaderPolicy {
    /// Go on with the program as it is; rendering is then undefined.
    Lenient,
    /// Stop at the first failure.
    FailFast,
}

/// Outcome of compiling one stage, with the compiler's log.
#[derive(Debug)]
pub struct CompileResult {
    pub stage: ShaderStage,
    pub ok: bool,
    pub log: String,
}

/// Outcome of linking the two stages, with the linker's log.
#[derive(Debug)]
pub struct LinkResult {
    pub ok: bool,
    pub log: String,
}

#[derive(Debug)]
pub enum ShaderError {
    Compile { stage: ShaderStage, log: String },
    Link { log: String },
}

/// Decides whether a program whose stages and link had these outcomes may be used.
/// Under `Lenient` it always may; under `FailFast` the first failure, in the order
/// vertex stage, fragment stage, link, is returned with its log.
pub fn check_program(
    policy: ShaderPolicy,
    vertex: CompileResult,
    fragment: CompileResult,
    link: LinkResult,
) -> (r: Result<(), ShaderError>)
    ensures
        policy == ShaderPolicy::Lenient ==> r is Ok,
        policy == ShaderPolicy::FailFast ==> {
            &&& !vertex.ok ==> r == Err::<(), ShaderError>(
                ShaderError::Compile { stage: vertex.stage, log: vertex.log },
            )
            &&& vertex.ok && !fragment.ok ==> r == Err::<(), ShaderError>(
                ShaderError::Compile { stage: fragment.stage, log: fragment.log },
            )
            &&& vertex.ok && fragment.ok && !link.ok ==> r == Err::<(), ShaderError>(
                ShaderError::Link { log: link.log },
            )
            &&& vertex.ok && fragment.ok && link.ok ==> r is Ok
        },
{
    match policy {
        ShaderPolicy::Lenient => Ok(()),
        ShaderPolicy::FailFast => {
            if !vertex.ok {
                Err(ShaderError::Compile { stage: vertex.stage, log: vertex.log })
            } else if !fragment.ok {
                Err(ShaderError::Compile { stage: fragment.stage, log: fragment.log })
            } else if !link.ok {
                Err(ShaderError::Link { log: link.log })
            } else {
                Ok(())
            }
        },
    }
}

/// Turns a raw attribute or uniform location into an index: a negative location
/// means the name is absent from the program, and the calls that would use it are skipped.
pub fn attrib_location(raw: i32) -> (r: Option<u32>)
    ensures
        raw >= 0 ==> r == Some(raw as u32),
        raw < 0 ==> r is None,
{
    if raw >= 0 {
        Some(raw as u32)
    } else {
        None
    }
}

} // verus!
