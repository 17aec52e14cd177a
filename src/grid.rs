//! Dimensions of the grid buffers that make up one fluid domain.
use vstd::prelude::*;

verus! {

/// Grid resolution of a fluid domain, in cells.
#[derive(Clone, Copy, Debug, PartialEq, Eq, Structural)]
pub struct GridSize {
    pub width: u32,
    pub height: u32,
}

/// Edge length (in cells) that grid dimensions are recommended to be a multiple of.
pub const RECOMMENDED_MULTIPLE: u32 = 64;

impl GridSize {
    /// A size whose buffers, face-centred ones included, can be described in `u32`.
    pub open spec fn wf(self) -> bool {
        &&& 0 < self.width < u32::MAX
        &&& 0 < self.height < u32::MAX
    }

    pub open spec fn is_recommended_spec(self) -> bool {
        self.width % 64 == 0 && self.height % 64 == 0
    }

    /// Whether both dimensions are multiples of 64; other sizes work but are discouraged.
    pub fn is_recommended(&self) -> (r: bool)
        ensures
            r == self.is_recommended_spec(),
    {
        self.width % RECOMMENDED_MULTIPLE == 0 && self.height % RECOMMENDED_MULTIPLE == 0
    }
}


/// Why a grid size cannot back a fluid domain.
#[derive(Clone, Copy, Debug, PartialEq, Eq, Structural)]
pub enum LayoutError {
    /// One of the dimensions is zero.
    EmptyGrid,
    /// A face-centred buffer, one larger than the grid along its axis, would not fit in `u32`.
    TooLarge,
}

/// Storage format of one texel of a grid buffer.
#[derive(Clone, Copy, Debug, PartialEq, Eq, Structural)]
pub enum TexelFormat {
    /// 32-bit float.
    R32Float,
    /// 32-bit signed integer.
    R32Sint,
}

/// The grid buffers owned by one fluid domain.
#[derive(Clone, Copy, Debug, PartialEq, Eq, Structural)]
pub enum BufferKind {
    /// Committed x-velocity, on vertical cell faces.
    U0,
    /// Working x-velocity.
    U1,
    /// Committed y-velocity, on horizontal cell faces.
    V0,
    /// Working y-velocity.
    V1,
    /// x-velocity of the solids, on vertical cell faces.
    USolid,
    /// y-velocity of the solids, on horizontal cell faces.
    VSolid,
    /// Index of the solid that covers a cell, or a negative sentinel.
    SolidId,
    /// Divergence of the working velocity.
    Divergence,
    /// Pressure, first Jacobi generation.
    P0,
    /// Pressure, second Jacobi generation.
    P1,
    /// Signed distance to the free surface.
    LevelsetAir0,
    /// Transported, not yet reinitialised surface field.
    LevelsetAir1,
    /// Signed distance to the nearest solid boundary.
    LevelsetSolid,
    /// x-coordinate of the nearest surface seed.
    SeedsX,
    /// y-coordinate of the nearest surface seed.
    SeedsY,
}

/// Placement of a buffer's samples on the staggered grid.
#[derive(Clone, Copy, Debug, PartialEq, Eq, Structural)]
pub enum Placement {
    /// One sample per cell.
    Center,
    /// One sample per vertical face: one more column than cells.
    FaceX,
    /// One sample per horizontal face: one more row than cells.
    FaceY,
}

/// Dimensions and format of one buffer of a domain.
#[derive(Clone, Copy, Debug, PartialEq, Eq, Structural)]
pub struct BufferSpec {
    pub kind: BufferKind,
    pub extent: GridSize,
    pub format: TexelFormat,
}

pub open spec fn placement_spec(kind: BufferKind) -> Placement {
    match kind {
        BufferKind::U0 | BufferKind::U1 | BufferKind::USolid => Placement::FaceX,
        BufferKind::V0 | BufferKind::V1 | BufferKind::VSolid => Placement::FaceY,
        _ => Placement::Center,
    }
}

pub open spec fn format_spec(kind: BufferKind) -> TexelFormat {
    match kind {
        BufferKind::SolidId => TexelFormat::R32Sint,
        _ => TexelFormat::R32Float,
    }
}

pub open spec fn extent_spec(p: Placement, size: GridSize) -> GridSize {
    match p {
        Placement::Center => size,
        Placement::FaceX => GridSize { width: (size.width + 1) as u32, height: size.height },
        Placement::FaceY => GridSize { width: size.width, height: (size.height + 1) as u32 },
    }
}

/// Every buffer of a domain, in allocation order.
pub open spec fn domain_buffers_spec() -> Seq<BufferKind> {
    seq![
        BufferKind::U0, BufferKind::U1, BufferKind::V0, BufferKind::V1,
        BufferKind::USolid, BufferKind::VSolid, BufferKind::SolidId, BufferKind::Divergence,
        BufferKind::P0, BufferKind::P1, BufferKind::LevelsetAir0, BufferKind::LevelsetAir1,
        BufferKind::LevelsetSolid, BufferKind::SeedsX, BufferKind::SeedsY,
    ]
}

pub open spec fn buffer_spec_of(kind: BufferKind, size: GridSize) -> BufferSpec {
    BufferSpec {
        kind,
        extent: extent_spec(placement_spec(kind), size),
        format: format_spec(kind),
    }
}

/// Where the samples of a buffer sit.
pub fn placement(kind: BufferKind) -> (r: Placement)
    ensures
        r == placement_spec(kind),
{
    match kind {
        BufferKind::U0 | BufferKind::U1 | BufferKind::USolid => Placement::FaceX,
        BufferKind::V0 | BufferKind::V1 | BufferKind::VSolid => Placement::FaceY,
        _ => Placement::Center,
    }
}

/// Texel format of a buffer: solid ids are integers, everything else is a float field.
pub fn texel_format(kind: BufferKind) -> (r: TexelFormat)
    ensures
        r == format_spec(kind),
{
    match kind {
        BufferKind::SolidId => TexelFormat::R32Sint,
        _ => TexelFormat::R32Float,
    }
}

/// Dimensions of a buffer with the given placement on a grid of `size` cells.
pub fn extent(p: Placement, size: GridSize) -> (r: GridSize)
    requires
        size.wf(),
    ensures
        r == extent_spec(p, size),
{
    match p {
        Placement::Center => size,
        Placement::FaceX => GridSize { width: size.width + 1, height: size.height },
        Placement::FaceY => GridSize { width: size.width, height: size.height + 1 },
    }
}

/// Every buffer of a domain, in allocation order.
pub fn domain_buffers() -> (r: Vec<BufferKind>)
    ensures
        r@ == domain_buffers_spec(),
{
    let r = vec![
        BufferKind::U0, BufferKind::U1, BufferKind::V0, BufferKind::V1,
        BufferKind::USolid, BufferKind::VSolid, BufferKind::SolidId, BufferKind::Divergence,
        BufferKind::P0, BufferKind::P1, BufferKind::LevelsetAir0, BufferKind::LevelsetAir1,
        BufferKind::LevelsetSolid, BufferKind::SeedsX, BufferKind::SeedsY,
    ];
    assert(r@ =~= domain_buffers_spec());
    r
}

/// The fixed set of buffers allocated for one fluid domain.
#[derive(Debug)]
pub struct DomainLayout {
    pub size: GridSize,
    pub buffers: Vec<BufferSpec>,
}

impl DomainLayout {
    pub open spec fn wf(&self) -> bool {
        &&& self.size.wf()
        &&& self.buffers@ == domain_buffers_spec().map_values(|k: BufferKind| buffer_spec_of(k, self.size))
    }

    /// Checks a requested grid size and lists the buffers a domain of that size owns.
    pub fn new(size: GridSize) -> (r: Result<DomainLayout, LayoutError>)
        ensures
            (size.width == 0 || size.height == 0) <==> r == Err::<DomainLayout, LayoutError>(LayoutError::EmptyGrid),
            (size.width > 0 && size.height > 0 && !size.wf()) <==> r == Err::<DomainLayout, LayoutError>(LayoutError::TooLarge),
            size.wf() <==> r is Ok,
            r is Ok ==> r->Ok_0.wf() && r->Ok_0.size == size,
    {
        if size.width == 0 || size.height == 0 {
            return Err(LayoutError::EmptyGrid);
        }
        if size.width == u32::MAX || size.height == u32::MAX {
            return Err(LayoutError::TooLarge);
        }
        let kinds = domain_buffers();
        let mut buffers: Vec<BufferSpec> = Vec::new();
        let mut i: usize = 0;
        while i < kinds.len()
            invariant
                size.wf(),
                kinds@ == domain_buffers_spec(),
                i <= kinds@.len(),
                buffers@ == kinds@.take(i as int).map_values(|k: BufferKind| buffer_spec_of(k, size)),
            decreases kinds@.len() - i,
        {
            let kind = kinds[i];
            let spec = BufferSpec { kind, extent: extent(placement(kind), size), format: texel_format(kind) };
            buffers.push(spec);
            proof {
                assert(kinds@.take(i as int + 1) =~= kinds@.take(i as int).push(kind));
            }
            i += 1;
            assert(buffers@ =~= kinds@.take(i as int).map_values(|k: BufferKind| buffer_spec_of(k, size)));
        }
        assert(kinds@.take(kinds@.len() as int) =~= kinds@);
        Ok(DomainLayout { size, buffers })
    }

    /// Velocity-like buffers have one more sample than there are cells along their own
    /// axis and as many as there are cells along the other; all other buffers match the grid.
    pub proof fn lemma_staggered_extents(&self)
        requires
            self.wf(),
        ensures
            self.buffers@.len() == domain_buffers_spec().len(),
            forall|i: int| 0 <= i < self.buffers@.len() ==> {
                let b = #[trigger] self.buffers@[i];
                &&& placement_spec(b.kind) == Placement::FaceX ==> b.extent.width == self.size.width + 1
                    && b.extent.height == self.size.height
                &&& placement_spec(b.kind) == Placement::FaceY ==> b.extent.width == self.size.width
                    && b.extent.height == self.size.height + 1
                &&& placement_spec(b.kind) == Placement::Center ==> b.extent == self.size
            },
    {
    }

    /// The specification of one buffer of the domain.
    pub fn buffer(&self, kind: BufferKind) -> (r: BufferSpec)
        requires
            self.wf(),
        ensures
            r == buffer_spec_of(kind, self.size),
    {
        BufferSpec { kind, extent: extent(placement(kind), self.size), format: texel_format(kind) }
    }
}

} // verus!
