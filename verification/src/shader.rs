//! The shader provider's side of pipeline creation: where the compiled
//! shaders are kept, and the check that their bytecode is a sequence of
//! 32-bit words before a pipeline is built from it.

use std::path::PathBuf;
use vstd::prelude::*;
use vulkanalia::bytecode::{Bytecode, BytecodeError};

verus! {

/// A buffer of SPIR-V bytecode, aligned to four bytes, as vulkanalia keeps
/// it. Nothing of its inside is visible here.
#[verifier::external_type_specification]
#[verifier::external_body]
pub struct ExBytecode(vulkanalia::bytecode::Bytecode);

/// A path of the file system, as std keeps it. Nothing of its inside is
/// visible here.
#[verifier::external_type_specification]
#[verifier::external_body]
pub struct ExPathBuf(std::path::PathBuf);

/// `PathBuf::clone` of std gives a path equal to the one it is called on.
pub assume_specification[ <std::path::PathBuf as std::clone::Clone>::clone ](
    path: &std::path::PathBuf,
) -> (r: std::path::PathBuf)
    ensures
        r == *path,
;

/// The bytes that an aligned buffer holds.
pub uninterp spec fn bytecode_bytes(code: Bytecode) -> Seq<u8>;

/// The two stages of the pipeline.
#[derive(Clone, Copy, Debug, PartialEq, Eq, Structural)]
pub enum ShaderStage {
    Vertex,
    Fragment,
}

/// Why bytecode cannot be handed to the device.
#[derive(Clone, Copy, Debug, PartialEq, Eq, Structural)]
pub enum ShaderError {
    /// The bytecode of `stage` is empty, or its length of `length` bytes is
    /// no multiple of four.
    Misaligned { stage: ShaderStage, length: usize },
    /// No memory was left for the aligned copy of the bytecode of `stage`.
    OutOfMemory { stage: ShaderStage },
}

/// Why an aligned copy could not be made.
#[derive(Clone, Copy, Debug, PartialEq, Eq, Structural)]
pub enum CopyError {
    /// No memory was left.
    Alloc,
    /// The bytes, this many, are no sequence of 32-bit words.
    Length(usize),
}

/// Compiled bytecode of the two shader stages.
pub struct ShaderByteCode {
    pub vertex: Vec<u8>,
    pub fragment: Vec<u8>,
}

/// Bytecode of the two stages in aligned buffers, ready for the device.
pub struct AlignedShaders {
    pub vertex: Bytecode,
    pub fragment: Bytecode,
}

/// Knows where the compiled shaders are kept.
#[derive(Clone, Debug)]
pub struct ShaderManager {
    shaders_dir: PathBuf,
}

/// The bytes are a sequence of 32-bit words, and not empty.
pub open spec fn word_aligned(bytes: Seq<u8>) -> bool {
    bytes.len() > 0 && bytes.len() % 4 == 0
}

/// Calls `Bytecode::new` of vulkanalia, which copies the bytes into a new
/// buffer aligned to four bytes. It refuses an empty slice and one whose
/// length is no multiple of four, and reports that length. On other slices
/// it fails only when the allocator hands out no memory; where it succeeds
/// the buffer holds the bytes of the slice.
#[verifier::external_body]
fn aligned_copy(bytes: &[u8]) -> (r: Result<Bytecode, CopyError>)
    ensures
        match r {
            Ok(code) => word_aligned(bytes@) && bytecode_bytes(code) == bytes@,
            Err(CopyError::Length(length)) => !word_aligned(bytes@) && length == bytes@.len(),
            Err(CopyError::Alloc) => word_aligned(bytes@),
        },
{
    match Bytecode::new(bytes) {
        Ok(code) => Ok(code),
        Err(BytecodeError::Alloc) => Err(CopyError::Alloc),
        Err(BytecodeError::Length(length)) => Err(CopyError::Length(length)),
    }
}

/// What the outcome of an aligned copy means for the bytecode of `stage`.
pub fn stage_outcome(stage: ShaderStage, outcome: Result<Bytecode, CopyError>) -> (r: Result<
    Bytecode,
    ShaderError,
>)
    ensures
        r == match outcome {
            Ok(code) => Ok::<Bytecode, ShaderError>(code),
            Err(CopyError::Alloc) => Err(ShaderError::OutOfMemory { stage }),
            Err(CopyError::Length(length)) => Err(ShaderError::Misaligned { stage, length }),
        },
{
    match outcome {
        Ok(code) => Ok(code),
        Err(CopyError::Alloc) => Err(ShaderError::OutOfMemory { stage }),
        Err(CopyError::Length(length)) => Err(ShaderError::Misaligned { stage, length }),
    }
}

impl ShaderByteCode {
    /// The first stage whose bytecode is no sequence of words, if any: the
    /// vertex stage is looked at first.
    pub open spec fn spec_check(&self) -> Result<(), ShaderError> {
        if !word_aligned(self.vertex@) {
            Err(ShaderError::Misaligned { stage: ShaderStage::Vertex, length: self.vertex.len() })
        } else if !word_aligned(self.fragment@) {
            Err(
                ShaderError::Misaligned {
                    stage: ShaderStage::Fragment,
                    length: self.fragment.len(),
                },
            )
        } else {
            Ok(())
        }
    }

    /// Checks that the bytecode of both stages is a sequence of 32-bit
    /// words and not empty.
    pub fn check(&self) -> (r: Result<(), ShaderError>)
        ensures
            r == self.spec_check(),
    {
        let vertex: usize = self.vertex.len();
        let fragment: usize = self.fragment.len();
        if vertex == 0 || vertex % 4 != 0 {
            Err(ShaderError::Misaligned { stage: ShaderStage::Vertex, length: vertex })
        } else if fragment == 0 || fragment % 4 != 0 {
            Err(ShaderError::Misaligned { stage: ShaderStage::Fragment, length: fragment })
        } else {
            Ok(())
        }
    }

    /// Copies the bytecode of both stages into aligned buffers. Bytecode
    /// that is no sequence of words is refused, the vertex stage first, and
    /// nothing is copied. Otherwise the copies hold the bytes of the two
    /// stages, unless memory runs out.
    pub fn align(&self) -> (r: Result<AlignedShaders, ShaderError>)
        ensures
            match r {
                Ok(aligned) => {
                    &&& self.spec_check() is Ok
                    &&& bytecode_bytes(aligned.vertex) == self.vertex@
                    &&& bytecode_bytes(aligned.fragment) == self.fragment@
                },
                Err(ShaderError::OutOfMemory { .. }) => self.spec_check() is Ok,
                Err(error) => self.spec_check() == Err::<(), ShaderError>(error),
            },
    {
        match self.check() {
            Err(error) => {
                return Err(error);
            },
            Ok(()) => {},
        }
        let vertex = match stage_outcome(
            ShaderStage::Vertex,
            aligned_copy(self.vertex.as_slice()),
        ) {
            Ok(code) => code,
            Err(error) => {
                return Err(error);
            },
        };
        let fragment = match stage_outcome(
            ShaderStage::Fragment,
            aligned_copy(self.fragment.as_slice()),
        ) {
            Ok(code) => code,
            Err(error) => {
                return Err(error);
            },
        };
        Ok(AlignedShaders { vertex, fragment })
    }
}

impl ShaderManager {
    /// The directory in which the compiled shaders are kept.
    pub closed spec fn dir(&self) -> PathBuf {
        self.shaders_dir
    }

    /// A manager for the shaders kept in `shaders_dir`.
    pub fn create(shaders_dir: PathBuf) -> (r: ShaderManager)
        ensures
            r.dir() == shaders_dir,
    {
        ShaderManager { shaders_dir }
    }

    /// The directory in which the compiled shaders are kept.
    pub fn shaders_dir(&self) -> (r: &PathBuf)
        ensures
            *r == self.dir(),
    {
        &self.shaders_dir
    }
}

} // verus!
