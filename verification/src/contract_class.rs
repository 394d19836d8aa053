//! Compiled contract classes and their entry-point tables.
use crate::error::TransactionError;
use crate::execution::EntryPointType;
use crate::felt::{felts_view, Felt};
use crate::state::list_map::MapValue;
use crate::utils::{clone_bytes, clone_felts};
use vstd::prelude::*;

verus! {

/// One row of an entry-point table: where the code of a selector starts.
#[derive(Clone, Copy, Debug, PartialEq, Eq, Hash)]
pub struct ContractEntryPoint {
    pub selector: Felt,
    pub offset: usize,
}

/// What a [`ContractEntryPoint`] holds.
pub struct ContractEntryPointView {
    pub selector: nat,
    pub offset: nat,
}

impl View for ContractEntryPoint {
    type V = ContractEntryPointView;

    open spec fn view(&self) -> ContractEntryPointView {
        ContractEntryPointView { selector: self.selector@, offset: self.offset as nat }
    }
}

impl ContractEntryPoint {
    pub fn new(selector: Felt, offset: usize) -> (r: ContractEntryPoint)
        ensures
            r@ == (ContractEntryPointView { selector: selector@, offset: offset as nat }),
    {
        ContractEntryPoint { selector, offset }
    }
}

/// The rows that a table holds, in the order of the table.
pub open spec fn table_view(s: Seq<ContractEntryPoint>) -> Seq<ContractEntryPointView> {
    s.map_values(|e: ContractEntryPoint| e@)
}

/// The rows of a table that may be missing.
pub open spec fn opt_table_view(t: Option<Vec<ContractEntryPoint>>) -> Option<
    Seq<ContractEntryPointView>,
> {
    match t {
        Some(v) => Some(table_view(v@)),
        None => None,
    }
}

/// The first row of a table with the given selector, if there is one.
pub open spec fn first_entry_point(table: Seq<ContractEntryPointView>, selector: nat) -> Option<
    ContractEntryPointView,
>
    decreases table.len(),
{
    if table.len() == 0 {
        None
    } else if table[0].selector == selector {
        Some(table[0])
    } else {
        first_entry_point(table.drop_first(), selector)
    }
}

/// No selector occurs in two rows of the table.
pub open spec fn selectors_unique(table: Seq<ContractEntryPointView>) -> bool {
    forall|i: int, j: int|
        0 <= i < j < table.len() ==> (#[trigger] table[i]).selector != (#[trigger] table[j]).selector
}

/// Every row of the table points into a program of `len` instructions.
pub open spec fn offsets_below(table: Seq<ContractEntryPointView>, len: nat) -> bool {
    forall|i: int| 0 <= i < table.len() ==> (#[trigger] table[i]).offset < len
}

/// Finds the row of a selector; the first one counts.
pub fn find_entry_point(table: &Vec<ContractEntryPoint>, selector: &Felt) -> (r: Option<
    ContractEntryPoint,
>)
    ensures
        match r {
            Some(e) => first_entry_point(table_view(table@), selector@) == Some(e@),
            None => first_entry_point(table_view(table@), selector@).is_none(),
        },
{
    let mut i: usize = 0;
    assert(table_view(table@).subrange(0, table.len() as int) =~= table_view(table@));
    while i < table.len()
        invariant
            0 <= i <= table.len(),
            first_entry_point(table_view(table@), selector@) == first_entry_point(
                table_view(table@).subrange(i as int, table.len() as int),
                selector@,
            ),
        decreases table.len() - i,
    {
        let ghost rest = table_view(table@).subrange(i as int, table.len() as int);
        assert(rest[0] == table@[i as int]@);
        assert(rest.drop_first() =~= table_view(table@).subrange(i + 1, table.len() as int));
        if table[i].selector.equals(selector) {
            return Some(table[i]);
        }
        i += 1;
    }
    None
}

/// Whether no selector occurs twice in a table.
pub fn has_unique_selectors(table: &Vec<ContractEntryPoint>) -> (r: bool)
    ensures
        r == selectors_unique(table_view(table@)),
{
    let mut j: usize = 0;
    while j < table.len()
        invariant
            0 <= j <= table.len(),
            forall|a: int, b: int|
                0 <= a < b < j ==> (#[trigger] table_view(table@)[a]).selector != (
                #[trigger] table_view(table@)[b]).selector,
        decreases table.len() - j,
    {
        let mut i: usize = 0;
        while i < j
            invariant
                0 <= i <= j < table.len(),
                forall|a: int|
                    0 <= a < i ==> (#[trigger] table_view(table@)[a]).selector != table_view(
                        table@,
                    )[j as int].selector,
            decreases j - i,
        {
            if table[i].selector.equals(&table[j].selector) {
                assert(table_view(table@)[i as int].selector == table_view(
                    table@,
                )[j as int].selector);
                return false;
            }
            i += 1;
        }
        j += 1;
    }
    true
}

/// Whether every row of a table points below `len`.
pub fn has_offsets_below(table: &Vec<ContractEntryPoint>, len: usize) -> (r: bool)
    ensures
        r == offsets_below(table_view(table@), len as nat),
{
    let mut i: usize = 0;
    while i < table.len()
        invariant
            0 <= i <= table.len(),
            forall|a: int| 0 <= a < i ==> (#[trigger] table_view(table@)[a]).offset < len,
        decreases table.len() - i,
    {
        if table[i].offset >= len {
            assert(table_view(table@)[i as int].offset >= len);
            return false;
        }
        i += 1;
    }
    true
}

fn clone_table(table: &Vec<ContractEntryPoint>) -> (r: Vec<ContractEntryPoint>)
    ensures
        r@ == table@,
{
    let mut r: Vec<ContractEntryPoint> = Vec::new();
    let mut i: usize = 0;
    while i < table.len()
        invariant
            0 <= i <= table.len(),
            r@ == table@.subrange(0, i as int),
        decreases table.len() - i,
    {
        r.push(table[i]);
        assert(table@.subrange(0, i + 1) =~= table@.subrange(0, i as int).push(table@[i as int]));
        i += 1;
    }
    assert(table@.subrange(0, table.len() as int) =~= table@);
    r
}

fn clone_opt_table(table: &Option<Vec<ContractEntryPoint>>) -> (r: Option<Vec<ContractEntryPoint>>)
    ensures
        opt_table_view(r) == opt_table_view(*table),
{
    match table {
        Some(t) => Some(clone_table(t)),
        None => None,
    }
}

/// A class compiled from Cairo 0: a program and up to three tables, any of
/// which may be missing.
#[derive(Debug, PartialEq, Eq)]
pub struct ContractClass {
    /// The program in its serialised form.
    pub program: Vec<u8>,
    pub external: Option<Vec<ContractEntryPoint>>,
    pub l1_handler: Option<Vec<ContractEntryPoint>>,
    pub constructor: Option<Vec<ContractEntryPoint>>,
}

/// What a [`ContractClass`] holds.
pub struct ContractClassView {
    pub program: Seq<u8>,
    pub external: Option<Seq<ContractEntryPointView>>,
    pub l1_handler: Option<Seq<ContractEntryPointView>>,
    pub constructor: Option<Seq<ContractEntryPointView>>,
}

impl View for ContractClass {
    type V = ContractClassView;

    open spec fn view(&self) -> ContractClassView {
        ContractClassView {
            program: self.program@,
            external: opt_table_view(self.external),
            l1_handler: opt_table_view(self.l1_handler),
            constructor: opt_table_view(self.constructor),
        }
    }
}

impl Clone for ContractClass {
    fn clone(&self) -> (r: ContractClass)
        ensures
            r@ == self@,
    {
        ContractClass {
            program: clone_bytes(&self.program),
            external: clone_opt_table(&self.external),
            l1_handler: clone_opt_table(&self.l1_handler),
            constructor: clone_opt_table(&self.constructor),
        }
    }
}

/// A class compiled from Cairo 1: bytecode, the hints that go with it, and
/// three tables.
#[derive(Debug, PartialEq, Eq)]
pub struct CasmContractClass {
    pub bytecode: Vec<Felt>,
    /// What the machine needs beside the bytecode to run it, above all its
    /// hints, in serialised form.
    pub hints: Vec<u8>,
    pub external: Vec<ContractEntryPoint>,
    pub l1_handler: Vec<ContractEntryPoint>,
    pub constructor: Vec<ContractEntryPoint>,
}

/// What a [`CasmContractClass`] holds.
pub struct CasmContractClassView {
    pub bytecode: Seq<nat>,
    pub hints: Seq<u8>,
    pub external: Seq<ContractEntryPointView>,
    pub l1_handler: Seq<ContractEntryPointView>,
    pub constructor: Seq<ContractEntryPointView>,
}

impl View for CasmContractClass {
    type V = CasmContractClassView;

    open spec fn view(&self) -> CasmContractClassView {
        CasmContractClassView {
            bytecode: felts_view(self.bytecode@),
            hints: self.hints@,
            external: table_view(self.external@),
            l1_handler: table_view(self.l1_handler@),
            constructor: table_view(self.constructor@),
        }
    }
}

impl Clone for CasmContractClass {
    fn clone(&self) -> (r: CasmContractClass)
        ensures
            r@ == self@,
    {
        CasmContractClass {
            bytecode: clone_felts(&self.bytecode),
            hints: clone_bytes(&self.hints),
            external: clone_table(&self.external),
            l1_handler: clone_table(&self.l1_handler),
            constructor: clone_table(&self.constructor),
        }
    }
}

/// A compiled class of either kind.
#[derive(Debug, PartialEq, Eq)]
pub enum CompiledClass {
    Deprecated(ContractClass),
    Casm(CasmContractClass),
}

/// What a [`CompiledClass`] holds.
pub enum CompiledClassView {
    Deprecated(ContractClassView),
    Casm(CasmContractClassView),
}

impl CompiledClassView {
    /// The table of one kind of entry point, if the class has it.
    pub open spec fn table(self, entry_point_type: EntryPointType) -> Option<
        Seq<ContractEntryPointView>,
    > {
        match self {
            CompiledClassView::Deprecated(c) => match entry_point_type {
                EntryPointType::External => c.external,
                EntryPointType::L1Handler => c.l1_handler,
                EntryPointType::Constructor => c.constructor,
            },
            CompiledClassView::Casm(c) => match entry_point_type {
                EntryPointType::External => Some(c.external),
                EntryPointType::L1Handler => Some(c.l1_handler),
                EntryPointType::Constructor => Some(c.constructor),
            },
        }
    }

    /// The row that a call of the given kind and selector starts at.
    pub open spec fn entry_point(self, entry_point_type: EntryPointType, selector: nat) -> Option<
        ContractEntryPointView,
    > {
        match self.table(entry_point_type) {
            Some(t) => first_entry_point(t, selector),
            None => None,
        }
    }

    /// The class keeps what its format asks of it: in each table every
    /// selector occurs once, and a Cairo 1 class points into its bytecode.
    pub open spec fn valid(self) -> bool {
        match self {
            CompiledClassView::Deprecated(c) => {
                &&& c.external matches Some(t) ==> selectors_unique(t)
                &&& c.l1_handler matches Some(t) ==> selectors_unique(t)
                &&& c.constructor matches Some(t) ==> selectors_unique(t)
            },
            CompiledClassView::Casm(c) => {
                &&& selectors_unique(c.external)
                &&& selectors_unique(c.l1_handler)
                &&& selectors_unique(c.constructor)
                &&& offsets_below(c.external, c.bytecode.len())
                &&& offsets_below(c.l1_handler, c.bytecode.len())
                &&& offsets_below(c.constructor, c.bytecode.len())
            },
        }
    }

    /// Whether the class has a constructor to run.
    pub open spec fn has_constructor(self) -> bool {
        match self.table(EntryPointType::Constructor) {
            Some(t) => t.len() > 0,
            None => false,
        }
    }
}

impl View for CompiledClass {
    type V = CompiledClassView;

    open spec fn view(&self) -> CompiledClassView {
        match self {
            CompiledClass::Deprecated(c) => CompiledClassView::Deprecated(c@),
            CompiledClass::Casm(c) => CompiledClassView::Casm(c@),
        }
    }
}

impl Clone for CompiledClass {
    fn clone(&self) -> (r: CompiledClass)
        ensures
            r@ == self@,
    {
        match self {
            CompiledClass::Deprecated(c) => CompiledClass::Deprecated(c.clone()),
            CompiledClass::Casm(c) => CompiledClass::Casm(c.clone()),
        }
    }
}

impl MapValue for CompiledClass {
    fn duplicate(&self) -> (r: CompiledClass) {
        self.clone()
    }
}

fn opt_table_unique(table: &Option<Vec<ContractEntryPoint>>) -> (r: bool)
    ensures
        r == (opt_table_view(*table) matches Some(t) ==> selectors_unique(t)),
{
    match table {
        Some(t) => has_unique_selectors(t),
        None => true,
    }
}

impl CompiledClass {
    /// The table of one kind of entry point, if the class has it.
    pub fn entry_points(&self, entry_point_type: EntryPointType) -> (r: Option<
        &Vec<ContractEntryPoint>,
    >)
        ensures
            match r {
                Some(t) => self@.table(entry_point_type) == Some(table_view(t@)),
                None => self@.table(entry_point_type).is_none(),
            },
    {
        match self {
            CompiledClass::Deprecated(c) => {
                let table = match entry_point_type {
                    EntryPointType::External => &c.external,
                    EntryPointType::L1Handler => &c.l1_handler,
                    EntryPointType::Constructor => &c.constructor,
                };
                match table {
                    Some(t) => Some(t),
                    None => None,
                }
            },
            CompiledClass::Casm(c) => match entry_point_type {
                EntryPointType::External => Some(&c.external),
                EntryPointType::L1Handler => Some(&c.l1_handler),
                EntryPointType::Constructor => Some(&c.constructor),
            },
        }
    }

    /// Finds where a call of the given kind and selector starts.
    pub fn get_selected_entry_point(
        &self,
        entry_point_type: EntryPointType,
        selector: &Felt,
    ) -> (r: Result<ContractEntryPoint, TransactionError>)
        ensures
            match r {
                Ok(e) => self@.entry_point(entry_point_type, selector@) == Some(e@),
                Err(e) => e == TransactionError::EntryPointNotFound && self@.entry_point(
                    entry_point_type,
                    selector@,
                ).is_none(),
            },
    {
        match self.entry_points(entry_point_type) {
            Some(table) => match find_entry_point(table, selector) {
                Some(e) => Ok(e),
                None => Err(TransactionError::EntryPointNotFound),
            },
            None => Err(TransactionError::EntryPointNotFound),
        }
    }

    /// Whether the class has a constructor to run.
    pub fn has_constructor(&self) -> (r: bool)
        ensures
            r == self@.has_constructor(),
    {
        match self.entry_points(EntryPointType::Constructor) {
            Some(t) => t.len() > 0,
            None => false,
        }
    }

    /// Whether the class keeps what its format asks of it.
    pub fn is_valid(&self) -> (r: bool)
        ensures
            r == self@.valid(),
    {
        match self {
            CompiledClass::Deprecated(c) => {
                opt_table_unique(&c.external) && opt_table_unique(&c.l1_handler)
                    && opt_table_unique(&c.constructor)
            },
            CompiledClass::Casm(c) => {
                let len = c.bytecode.len();
                has_unique_selectors(&c.external) && has_unique_selectors(&c.l1_handler)
                    && has_unique_selectors(&c.constructor) && has_offsets_below(
                    &c.external,
                    len,
                ) && has_offsets_below(&c.l1_handler, len) && has_offsets_below(
                    &c.constructor,
                    len,
                )
            },
        }
    }
}

} // verus!
