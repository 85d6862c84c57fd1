//! Layout of the two chained 8259 interrupt controllers and the routing of
//! end-of-interrupt acknowledgements between them.
use vstd::prelude::*;

verus! {

/// Number of interrupt lines on one controller chip.
pub const PIC_INTERRUPT_LINES: u8 = 8;

/// Number of vectors the processor reserves for its own exceptions.
pub const CPU_EXCEPTION_VECTORS: u8 = 32;

/// First vector of the primary chip: right after the exception slots.
pub const PIC_1_OFFSET: u8 = 32;

/// First vector of the secondary chip: right after the primary chip's lines.
pub const PIC_2_OFFSET: u8 = 40;

/// The hardware interrupts this kernel services.
#[derive(Debug, Clone, Copy, PartialEq, Eq, Structural)]
pub enum InterruptIndex {
    /// Programmable interval timer (primary line 0).
    Timer,
    /// PS/2 keyboard (primary line 1).
    Keyboard,
}

impl InterruptIndex {
    /// The vector the interrupt arrives on.
    pub open spec fn vector_spec(self) -> u8 {
        match self {
            InterruptIndex::Timer => PIC_1_OFFSET,
            InterruptIndex::Keyboard => (PIC_1_OFFSET + 1) as u8,
        }
    }

    /// The vector the interrupt arrives on.
    pub fn vector(self) -> (r: u8)
        ensures
            r == self.vector_spec(),
    {
        match self {
            InterruptIndex::Timer => PIC_1_OFFSET,
            InterruptIndex::Keyboard => PIC_1_OFFSET + 1,
        }
    }
}

impl From<InterruptIndex> for u8 {
    fn from(value: InterruptIndex) -> (r: u8) {
        value.vector()
    }
}

impl vstd::std_specs::convert::FromSpecImpl<InterruptIndex> for u8 {
    open spec fn obeys_from_spec() -> bool {
        true
    }

    open spec fn from_spec(v: InterruptIndex) -> u8 {
        v.vector_spec()
    }
}

impl From<InterruptIndex> for usize {
    fn from(value: InterruptIndex) -> (r: usize) {
        value.vector() as usize
    }
}

impl vstd::std_specs::convert::FromSpecImpl<InterruptIndex> for usize {
    open spec fn obeys_from_spec() -> bool {
        true
    }

    open spec fn from_spec(v: InterruptIndex) -> usize {
        v.vector_spec() as usize
    }
}

/// Why a pair of controller offsets was refused.
#[derive(Debug, Clone, Copy, PartialEq, Eq, Structural)]
pub enum LayoutError {
    /// The primary block would overlap the processor's exception vectors.
    OverlapsExceptions,
    /// The secondary block does not start right after the primary block.
    NotChained,
    /// The secondary block would run past the last vector.
    OutOfVectors,
}

/// The vector blocks assigned to the two chained controller chips.
#[derive(Debug, Clone, Copy, PartialEq, Eq, Structural)]
pub struct ChainedLayout {
    primary_offset: u8,
    secondary_offset: u8,
}

/// Which chips an acknowledgement goes to.
#[derive(Debug, Clone, Copy, PartialEq, Eq, Structural)]
pub struct Acknowledgement {
    /// The primary chip is told that the interrupt was serviced.
    pub primary: bool,
    /// The secondary chip is told that the interrupt was serviced.
    pub secondary: bool,
}

/// The error, if any, that a pair of offsets is refused with.
pub open spec fn layout_error(primary: u8, secondary: u8) -> Option<LayoutError> {
    if primary < CPU_EXCEPTION_VECTORS {
        Some(LayoutError::OverlapsExceptions)
    } else if secondary != primary + PIC_INTERRUPT_LINES {
        Some(LayoutError::NotChained)
    } else if secondary + PIC_INTERRUPT_LINES > 256 {
        Some(LayoutError::OutOfVectors)
    } else {
        None
    }
}

/// `vector` is one of the eight lines of the chip whose block starts at `offset`.
pub open spec fn in_block(offset: u8, vector: u8) -> bool {
    offset <= vector < offset + PIC_INTERRUPT_LINES
}

impl ChainedLayout {
    /// The offsets are a valid chained layout.
    pub open spec fn wf(self) -> bool {
        layout_error(self.primary_offset_spec(), self.secondary_offset_spec()).is_none()
    }

    /// First vector of the primary chip.
    pub closed spec fn primary_offset_spec(self) -> u8 {
        self.primary_offset
    }

    /// First vector of the secondary chip.
    pub closed spec fn secondary_offset_spec(self) -> u8 {
        self.secondary_offset
    }

    /// The chips that must be acknowledged once `vector` has been serviced:
    /// the secondary chip too when the vector is one of its lines, neither
    /// when the vector belongs to no chip.
    pub open spec fn acknowledgement_spec(self, vector: u8) -> Acknowledgement {
        let secondary = in_block(self.secondary_offset_spec(), vector);
        let primary = in_block(self.primary_offset_spec(), vector) || secondary;
        Acknowledgement { primary, secondary }
    }

    /// Builds a layout from the two chips' first vectors.
    pub fn new(primary_offset: u8, secondary_offset: u8) -> (r: Result<ChainedLayout, LayoutError>)
        ensures
            match layout_error(primary_offset, secondary_offset) {
                None => r is Ok && r->Ok_0.primary_offset_spec() == primary_offset
                    && r->Ok_0.secondary_offset_spec() == secondary_offset,
                Some(e) => r == Err::<ChainedLayout, LayoutError>(e),
            },
            r is Ok ==> r->Ok_0.wf(),
    {
        if primary_offset < CPU_EXCEPTION_VECTORS {
            Err(LayoutError::OverlapsExceptions)
        } else if primary_offset > 255 - PIC_INTERRUPT_LINES || secondary_offset != primary_offset
            + PIC_INTERRUPT_LINES {
            Err(LayoutError::NotChained)
        } else if secondary_offset > 255 - PIC_INTERRUPT_LINES + 1 {
            Err(LayoutError::OutOfVectors)
        } else {
            Ok(ChainedLayout { primary_offset, secondary_offset })
        }
    }

    /// The layout this kernel uses: the primary chip right after the exception
    /// vectors, the secondary chip right after it.
    pub fn standard() -> (r: ChainedLayout)
        ensures
            r.wf(),
            r.primary_offset_spec() == PIC_1_OFFSET,
            r.secondary_offset_spec() == PIC_2_OFFSET,
    {
        ChainedLayout { primary_offset: PIC_1_OFFSET, secondary_offset: PIC_2_OFFSET }
    }

    /// First vector of the primary chip.
    pub fn primary_offset(&self) -> (r: u8)
        ensures
            r == self.primary_offset_spec(),
    {
        self.primary_offset
    }

    /// First vector of the secondary chip.
    pub fn secondary_offset(&self) -> (r: u8)
        ensures
            r == self.secondary_offset_spec(),
    {
        self.secondary_offset
    }

    /// The chips to acknowledge once `vector` has been serviced.
    pub fn acknowledgement(&self, vector: u8) -> (r: Acknowledgement)
        requires
            self.wf(),
        ensures
            r == self.acknowledgement_spec(vector),
    {
        let secondary = self.secondary_offset <= vector && vector - self.secondary_offset
            < PIC_INTERRUPT_LINES;
        let primary = (self.primary_offset <= vector && vector - self.primary_offset
            < PIC_INTERRUPT_LINES) || secondary;
        Acknowledgement { primary, secondary }
    }
}

/// Every layout that construction accepts has the secondary block start
/// exactly eight vectors after the primary one, clear of the exception vectors.
pub proof fn accepted_layouts_are_chained(primary: u8, secondary: u8)
    requires
        layout_error(primary, secondary).is_none(),
    ensures
        secondary == primary + 8,
        primary >= 32,
{
}

} // verus!
