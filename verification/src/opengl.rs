//! What the vertex buffers of the renderer hold, as far as numbers decide
//! it.

use vstd::prelude::*;

verus! {

/// The type of the elements of a vertex buffer.
#[derive(Debug, Clone, Copy, PartialEq, Eq, Structural)]
pub enum BufferType {
    Float,
    Int,
}

impl BufferType {
    /// The name of the element type.
    pub fn element_name(self) -> (r: &'static str)
        ensures
            r@ == match self {
                BufferType::Float => "f32"@,
                BufferType::Int => "i32"@,
            },
    {
        match self {
            BufferType::Float => "f32",
            BufferType::Int => "i32",
        }
    }
}

/// What can go wrong with the buffers of the renderer.
#[derive(Debug, Clone, PartialEq, Eq)]
pub enum RendererError {
    /// The length of a buffer is no multiple of its dimensions.
    InvalidDimensions { len: usize, dimensions: usize },
    /// No buffer stands at this position.
    InvalidBufferIndex(usize),
    /// The buffer stores elements of another type.
    TypeMismatch { expected: BufferType, actual: BufferType },
}

/// Checks that `len` elements make whole vertices of `dimensions` elements.
pub fn validate_dimensions(len: usize, dimensions: usize) -> (r: Result<(), RendererError>)
    ensures
        r is Ok <==> dimensions != 0 && len % dimensions == 0,
        r is Err ==> r == Err::<(), RendererError>(
            RendererError::InvalidDimensions { len, dimensions },
        ),
{
    if dimensions == 0 || len % dimensions != 0 {
        Err(RendererError::InvalidDimensions { len, dimensions })
    } else {
        Ok(())
    }
}

/// Checks that a buffer stands at position `index` of a group of `len`
/// buffers.
pub fn check_buffer_index(index: usize, len: usize) -> (r: Result<(), RendererError>)
    ensures
        r == if index < len {
            Ok::<(), RendererError>(())
        } else {
            Err::<(), RendererError>(RendererError::InvalidBufferIndex(index))
        },
{
    if index >= len {
        Err(RendererError::InvalidBufferIndex(index))
    } else {
        Ok(())
    }
}

/// Number of vertices in a buffer of `size` elements.
pub fn vertex_count(size: usize, dimensions: usize) -> (r: usize)
    ensures
        r == if dimensions == 0 {
            0
        } else {
            size / dimensions
        },
{
    if dimensions == 0 {
        0
    } else {
        size / dimensions
    }
}

/// Checks that a buffer of one type may be updated with data of another.
pub fn check_update(stored: BufferType, requested: BufferType, len: usize, dimensions: usize) -> (r:
    Result<(), RendererError>)
    ensures
        r is Ok <==> stored == requested && dimensions != 0 && len % dimensions == 0,
        stored != requested ==> r == Err::<(), RendererError>(
            RendererError::TypeMismatch { expected: stored, actual: requested },
        ),
        stored == requested && r is Err ==> r == Err::<(), RendererError>(
            RendererError::InvalidDimensions { len, dimensions },
        ),
{
    if stored != requested {
        return Err(RendererError::TypeMismatch { expected: stored, actual: requested });
    }
    validate_dimensions(len, dimensions)
}

/// The greatest number of a list; zero for an empty list.
pub open spec fn greatest(counts: Seq<usize>) -> usize
    decreases counts.len(),
{
    if counts.len() == 0 {
        0
    } else {
        let rest = greatest(counts.drop_last());
        if counts.last() > rest {
            counts.last()
        } else {
            rest
        }
    }
}

/// Number of vertices of a group of buffers: that of its largest buffer.
pub fn vertices_count(counts: &Vec<usize>) -> (r: usize)
    ensures
        r == greatest(counts@),
{
    let mut best: usize = 0;
    let mut i: usize = 0;
    proof {
        assert(counts@.take(0) =~= Seq::<usize>::empty());
    }
    while i < counts.len()
        invariant
            i <= counts.len(),
            best == greatest(counts@.take(i as int)),
        decreases counts.len() - i,
    {
        proof {
            assert(counts@.take(i + 1).drop_last() =~= counts@.take(i as int));
        }
        if counts[i] > best {
            best = counts[i];
        }
        i += 1;
    }
    proof {
        assert(counts@.take(counts.len() as int) =~= counts@);
    }
    best
}

} // verus!
