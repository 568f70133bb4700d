//! The parameter table: the ordered, append-only registry of runtime inputs.

use vstd::prelude::*;
use crate::error::KernelError;
use crate::text::{make_param_name, param_name};

verus! {

/// The two kinds of runtime input.
#[derive(Debug, Clone, Copy, PartialEq, Eq, Structural)]
pub enum ParamKind {
    Scalar,
    Buffer2D,
}

/// A runtime input. A number is held as the bit pattern of its 32-bit
/// floating-point value; the library carries it and never computes with it.
#[derive(Debug, PartialEq, Eq)]
pub enum ParamValue {
    /// One number.
    Scalar(u32),
    /// A grid of numbers, row after row.
    Buffer2D { width: u32, height: u32, data: Vec<u32> },
}

/// What a runtime input is, as a mathematical value.
pub enum ParamData {
    Scalar(u32),
    Buffer2D { width: nat, height: nat, cells: Seq<u32> },
}

impl ParamData {
    /// The kind of the input.
    pub open spec fn kind(self) -> ParamKind {
        match self {
            ParamData::Scalar(_) => ParamKind::Scalar,
            ParamData::Buffer2D { .. } => ParamKind::Buffer2D,
        }
    }

    /// A buffer holds exactly width times height cells.
    pub open spec fn well_shaped(self) -> bool {
        match self {
            ParamData::Scalar(_) => true,
            ParamData::Buffer2D { width, height, cells } => cells.len() == width * height,
        }
    }
}

impl View for ParamValue {
    type V = ParamData;

    open spec fn view(&self) -> ParamData {
        match self {
            ParamValue::Scalar(bits) => ParamData::Scalar(*bits),
            ParamValue::Buffer2D { width, height, data } => ParamData::Buffer2D {
                width: *width as nat,
                height: *height as nat,
                cells: data@,
            },
        }
    }
}

impl ParamValue {
    /// The kind of the input.
    pub fn kind(&self) -> (kind: ParamKind)
        ensures
            kind == self@.kind(),
    {
        match self {
            ParamValue::Scalar(_) => ParamKind::Scalar,
            ParamValue::Buffer2D { .. } => ParamKind::Buffer2D,
        }
    }
}

/// One row of the table.
#[derive(Debug, PartialEq, Eq)]
pub struct ParamEntry {
    /// The index of the entry: how many entries were registered before it.
    pub position: usize,
    /// The name under which generated source refers to the entry.
    pub name: String,
    /// The runtime value that is passed for the entry at dispatch.
    pub value: ParamValue,
}

/// The formal parameter list that a table gives: one name and kind per
/// entry, in registration order.
pub open spec fn formal_params(table: Seq<ParamData>) -> Seq<(Seq<char>, ParamKind)> {
    Seq::new(table.len(), |i: int| (param_name(i as nat), table[i].kind()))
}

/// The names of a table's entries, in registration order.
pub open spec fn formal_names(table: Seq<ParamData>) -> Seq<Seq<char>> {
    Seq::new(table.len(), |i: int| param_name(i as nat))
}

/// Whether `cells` fill a grid of the given width and height.
pub open spec fn shape_matches(cells: Seq<u32>, width: u32, height: u32) -> bool {
    cells.len() == width * height
}

/// One registration call, as its arguments.
pub enum Registration {
    Scalar(u32),
    Buffer2D { cells: Seq<u32>, width: u32, height: u32 },
}

impl Registration {
    /// Whether the call succeeds: a number always, a buffer when its cells
    /// fill its shape.
    pub open spec fn accepted(self) -> bool {
        match self {
            Registration::Scalar(_) => true,
            Registration::Buffer2D { cells, width, height } => shape_matches(cells, width, height),
        }
    }

    /// The value that the call registers.
    pub open spec fn data(self) -> ParamData {
        match self {
            Registration::Scalar(bits) => ParamData::Scalar(bits),
            Registration::Buffer2D { cells, width, height } => ParamData::Buffer2D {
                width: width as nat,
                height: height as nat,
                cells,
            },
        }
    }
}

/// The table after one registration call: the value at the end if the call
/// succeeds, the table as it was if it fails.
pub open spec fn table_after(table: Seq<ParamData>, call: Registration) -> Seq<ParamData> {
    if call.accepted() {
        table.push(call.data())
    } else {
        table
    }
}

/// The name that a registration call returns, if it succeeds: the one of the
/// position at the end of the table.
pub open spec fn name_issued(table: Seq<ParamData>, call: Registration) -> Option<Seq<char>> {
    if call.accepted() {
        Some(param_name(table.len()))
    } else {
        None
    }
}

/// The ordered registry of runtime inputs. Its view is the sequence of the
/// registered values; the entry at index `i` has position `i` and the name
/// `param_name(i)`.
pub struct ParameterTable {
    entries: Vec<ParamEntry>,
}

impl View for ParameterTable {
    type V = Seq<ParamData>;

    closed spec fn view(&self) -> Seq<ParamData> {
        self.entries@.map_values(|e: ParamEntry| e.value@)
    }
}

impl ParameterTable {
    /// Positions are contiguous from zero, each name is the one generated
    /// for its position, and every buffer has the shape it declares.
    #[verifier::type_invariant]
    pub closed spec fn well_formed(&self) -> bool {
        forall|i: int|
            0 <= i < self.entries@.len() ==> {
                &&& (#[trigger] self.entries@[i]).position == i
                &&& self.entries@[i].name@ == param_name(i as nat)
                &&& self.entries@[i].value@.well_shaped()
            }
    }

    /// An empty table.
    pub fn new() -> (table: Self)
        ensures
            table@ == Seq::<ParamData>::empty(),
    {
        let table = ParameterTable { entries: Vec::new() };
        assert(table@ =~= Seq::<ParamData>::empty());
        table
    }

    /// The number of entries.
    pub fn len(&self) -> (n: usize)
        ensures
            n == self@.len(),
    {
        self.entries.len()
    }

    /// Every registered buffer has the shape it declares.
    pub proof fn lemma_entries_well_shaped(&self)
        requires
            self.well_formed(),
        ensures
            forall|i: int| 0 <= i < self@.len() ==> (#[trigger] self@[i]).well_shaped(),
    {
    }

    /// Puts a row that fits the next position at the end of the table.
    fn append(&mut self, entry: ParamEntry)
        requires
            entry.position == old(self)@.len(),
            entry.name@ == param_name(old(self)@.len()),
            entry.value@.well_shaped(),
        ensures
            final(self)@ == old(self)@.push(entry.value@),
    {
        proof {
            use_type_invariant(&*self);
        }
        let mut entries: Vec<ParamEntry> = Vec::new();
        core::mem::swap(&mut self.entries, &mut entries);
        entries.push(entry);
        core::mem::swap(&mut self.entries, &mut entries);
        assert(self@ =~= old(self)@.push(entry.value@));
    }

    /// Appends a number and returns the name generated for it.
    pub fn register_scalar(&mut self, value: u32) -> (name: String)
        ensures
            final(self)@ == old(self)@.push(ParamData::Scalar(value)),
            name@ == param_name(old(self)@.len()),
            final(self)@ == table_after(old(self)@, Registration::Scalar(value)),
            Some(name@) == name_issued(old(self)@, Registration::Scalar(value)),
    {
        proof {
            use_type_invariant(&*self);
        }
        let position = self.entries.len();
        let name = make_param_name(position);
        let entry = ParamEntry {
            position,
            name: name.clone(),
            value: ParamValue::Scalar(value),
        };
        self.append(entry);
        name
    }

    /// Appends a grid of `width` columns and `height` rows, given row after
    /// row in `data`, and returns the name generated for it. Fails, and
    /// leaves the table as it was, unless `data` holds exactly
    /// `width * height` cells.
    pub fn register_buffer(&mut self, data: Vec<u32>, width: u32, height: u32) -> (outcome: Result<
        String,
        KernelError,
    >)
        ensures
            shape_matches(data@, width, height) ==> outcome is Ok,
            final(self)@ == table_after(
                old(self)@,
                Registration::Buffer2D { cells: data@, width, height },
            ),
            match outcome {
                Ok(name) => {
                    &&& shape_matches(data@, width, height)
                    &&& name@ == param_name(old(self)@.len())
                    &&& final(self)@ == old(self)@.push(
                        ParamData::Buffer2D {
                            width: width as nat,
                            height: height as nat,
                            cells: data@,
                        },
                    )
                },
                Err(e) => {
                    &&& !shape_matches(data@, width, height)
                    &&& e == KernelError::ShapeMismatch
                    &&& final(self)@ == old(self)@
                },
            },
    {
        proof {
            use_type_invariant(&*self);
        }
        if !cells_fill_grid(data.len(), width, height) {
            return Err(KernelError::ShapeMismatch);
        }
        let position = self.entries.len();
        let name = make_param_name(position);
        let entry = ParamEntry {
            position,
            name: name.clone(),
            value: ParamValue::Buffer2D { width, height, data },
        };
        self.append(entry);
        Ok(name)
    }

    /// The formal parameter list: the name and the kind of every entry, in
    /// registration order. The table is not changed.
    pub fn finalize(&self) -> (snapshot: Vec<(String, ParamKind)>)
        ensures
            snapshot@.map_values(|p: (String, ParamKind)| (p.0@, p.1)) == formal_params(self@),
    {
        proof {
            use_type_invariant(self);
        }
        let mut snapshot: Vec<(String, ParamKind)> = Vec::new();
        let mut i: usize = 0;
        while i < self.entries.len()
            invariant
                i <= self.entries@.len(),
                self.well_formed(),
                snapshot@.len() == i,
                forall|j: int|
                    0 <= j < i ==> (#[trigger] snapshot@[j]).0@ == param_name(j as nat)
                        && snapshot@[j].1 == self@[j].kind(),
            decreases self.entries@.len() - i,
        {
            let entry = &self.entries[i];
            snapshot.push((entry.name.clone(), entry.value.kind()));
            i = i + 1;
        }
        assert(snapshot@.map_values(|p: (String, ParamKind)| (p.0@, p.1)) =~= formal_params(
            self@,
        ));
        snapshot
    }

    /// The names of the formal parameter list, in registration order.
    pub fn names(&self) -> (names: Vec<String>)
        ensures
            names@.map_values(|s: String| s@) == formal_names(self@),
    {
        let snapshot = self.finalize();
        let ghost listed = snapshot@.map_values(|p: (String, ParamKind)| (p.0@, p.1));
        let mut names: Vec<String> = Vec::new();
        let mut i: usize = 0;
        while i < snapshot.len()
            invariant
                i <= snapshot@.len(),
                listed == snapshot@.map_values(|p: (String, ParamKind)| (p.0@, p.1)),
                listed == formal_params(self@),
                names@.len() == i,
                forall|j: int| 0 <= j < i ==> (#[trigger] names@[j])@ == param_name(j as nat),
            decreases snapshot@.len() - i,
        {
            assert(listed.len() == snapshot@.len());
            assert(listed[i as int].0 == snapshot@[i as int].0@);
            assert(formal_params(self@)[i as int].0 == param_name(i as nat));
            names.push(snapshot[i].0.clone());
            i = i + 1;
        }
        assert(listed.len() == snapshot@.len());
        assert(names@.map_values(|s: String| s@) =~= formal_names(self@));
        names
    }

    /// The runtime values of the entries, in registration order.
    pub fn values(&self) -> (values: Vec<&ParamValue>)
        ensures
            values@.map_values(|v: &ParamValue| v@) == self@,
            forall|i: int| 0 <= i < values@.len() ==> (#[trigger] values@[i])@.well_shaped(),
    {
        proof {
            use_type_invariant(self);
        }
        let mut values: Vec<&ParamValue> = Vec::new();
        let mut i: usize = 0;
        while i < self.entries.len()
            invariant
                i <= self.entries@.len(),
                self.well_formed(),
                values@.len() == i,
                forall|j: int| 0 <= j < i ==> (#[trigger] values@[j])@ == self@[j],
                forall|j: int| 0 <= j < i ==> (#[trigger] values@[j])@.well_shaped(),
            decreases self.entries@.len() - i,
        {
            values.push(&self.entries[i].value);
            i = i + 1;
        }
        assert(values@.map_values(|v: &ParamValue| v@) =~= self@);
        values
    }

    /// The entry at `position`, if there is one.
    pub fn entry(&self, position: usize) -> (entry: Option<&ParamEntry>)
        ensures
            entry is Some <==> position < self@.len(),
            entry matches Some(e) ==> {
                &&& e.position == position
                &&& e.name@ == param_name(position as nat)
                &&& e.value@ == self@[position as int]
                &&& e.value@.well_shaped()
            },
    {
        proof {
            use_type_invariant(self);
        }
        if position < self.entries.len() {
            Some(&self.entries[position])
        } else {
            None
        }
    }
}

/// Whether `count` cells fill a grid of the given width and height.
pub fn cells_fill_grid(count: usize, width: u32, height: u32) -> (fills: bool)
    ensures
        fills == (count == width * height),
{
    assert(width * height <= 0xFFFF_FFFF * 0xFFFF_FFFF) by (nonlinear_arith)
        requires
            width <= 0xFFFF_FFFF,
            height <= 0xFFFF_FFFF,
    ;
    let area: u64 = (width as u64) * (height as u64);
    (count as u64) == area
}

} // verus!
