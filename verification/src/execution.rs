//! Records of what an entry-point run did.
pub mod call_stack;
pub mod native_entrypoint;
pub mod transaction_run;

use crate::definitions::transaction_type::TransactionType;
use crate::felt::{felts_view, Felt};
use crate::utils::{clone_felts, Address, ClassHash};
use vstd::prelude::*;

verus! {

/// How a callee's code relates to the storage it runs on.
#[derive(Clone, Copy, Debug, PartialEq, Eq, Hash, Structural)]
pub enum CallType {
    /// The callee runs its own code on its own storage.
    Call,
    /// The caller runs a class's code on the caller's own storage.
    Delegate,
}

/// The table of a class that an entry point is listed in.
#[derive(Clone, Copy, Debug, PartialEq, Eq, Hash, Structural)]
pub enum EntryPointType {
    External,
    L1Handler,
    Constructor,
}

/// An event with its position among all events of the transaction.
#[derive(Debug, PartialEq, Eq)]
pub struct OrderedEvent {
    pub order: u64,
    pub keys: Vec<Felt>,
    pub data: Vec<Felt>,
}

/// What an [`OrderedEvent`] holds.
pub struct OrderedEventView {
    pub order: nat,
    pub keys: Seq<nat>,
    pub data: Seq<nat>,
}

impl View for OrderedEvent {
    type V = OrderedEventView;

    open spec fn view(&self) -> OrderedEventView {
        OrderedEventView {
            order: self.order as nat,
            keys: felts_view(self.keys@),
            data: felts_view(self.data@),
        }
    }
}

impl OrderedEvent {
    pub fn new(order: u64, keys: Vec<Felt>, data: Vec<Felt>) -> (r: OrderedEvent)
        ensures
            r@ == (OrderedEventView {
                order: order as nat,
                keys: felts_view(keys@),
                data: felts_view(data@),
            }),
    {
        OrderedEvent { order, keys, data }
    }
}

impl Clone for OrderedEvent {
    fn clone(&self) -> (r: OrderedEvent)
        ensures
            r@ == self@,
    {
        OrderedEvent {
            order: self.order,
            keys: clone_felts(&self.keys),
            data: clone_felts(&self.data),
        }
    }
}

/// The events that a sequence holds.
pub open spec fn events_view(s: Seq<OrderedEvent>) -> Seq<OrderedEventView> {
    s.map_values(|e: OrderedEvent| e@)
}

/// A message to L1 with its position among all messages of the transaction.
#[derive(Debug, PartialEq, Eq)]
pub struct OrderedL2ToL1Message {
    pub order: u64,
    pub to_address: Address,
    pub payload: Vec<Felt>,
}

/// What an [`OrderedL2ToL1Message`] holds.
pub struct OrderedL2ToL1MessageView {
    pub order: nat,
    pub to_address: nat,
    pub payload: Seq<nat>,
}

impl View for OrderedL2ToL1Message {
    type V = OrderedL2ToL1MessageView;

    open spec fn view(&self) -> OrderedL2ToL1MessageView {
        OrderedL2ToL1MessageView {
            order: self.order as nat,
            to_address: self.to_address@,
            payload: felts_view(self.payload@),
        }
    }
}

impl OrderedL2ToL1Message {
    pub fn new(order: u64, to_address: Address, payload: Vec<Felt>) -> (r: OrderedL2ToL1Message)
        ensures
            r@ == (OrderedL2ToL1MessageView {
                order: order as nat,
                to_address: to_address@,
                payload: felts_view(payload@),
            }),
    {
        OrderedL2ToL1Message { order, to_address, payload }
    }
}

impl Clone for OrderedL2ToL1Message {
    fn clone(&self) -> (r: OrderedL2ToL1Message)
        ensures
            r@ == self@,
    {
        OrderedL2ToL1Message {
            order: self.order,
            to_address: self.to_address,
            payload: clone_felts(&self.payload),
        }
    }
}

/// The messages that a sequence holds.
pub open spec fn messages_view(s: Seq<OrderedL2ToL1Message>) -> Seq<OrderedL2ToL1MessageView> {
    s.map_values(|m: OrderedL2ToL1Message| m@)
}

/// What the virtual machine used during one run.
#[derive(Clone, Copy, Debug, PartialEq, Eq, Structural)]
pub struct ExecutionResources {
    pub n_steps: usize,
    pub n_memory_holes: usize,
    pub pedersen_builtin: usize,
    pub range_check_builtin: usize,
    pub ecdsa_builtin: usize,
    pub bitwise_builtin: usize,
    pub ec_op_builtin: usize,
    pub poseidon_builtin: usize,
    pub keccak_builtin: usize,
    pub segment_arena_builtin: usize,
    pub output_builtin: usize,
}

impl ExecutionResources {
    /// The resources of a run that used nothing.
    pub open spec fn zero() -> ExecutionResources {
        ExecutionResources {
            n_steps: 0,
            n_memory_holes: 0,
            pedersen_builtin: 0,
            range_check_builtin: 0,
            ecdsa_builtin: 0,
            bitwise_builtin: 0,
            ec_op_builtin: 0,
            poseidon_builtin: 0,
            keccak_builtin: 0,
            segment_arena_builtin: 0,
            output_builtin: 0,
        }
    }

    /// The resources of a run that used nothing.
    pub fn new() -> (r: ExecutionResources)
        ensures
            r == ExecutionResources::zero(),
    {
        ExecutionResources {
            n_steps: 0,
            n_memory_holes: 0,
            pedersen_builtin: 0,
            range_check_builtin: 0,
            ecdsa_builtin: 0,
            bitwise_builtin: 0,
            ec_op_builtin: 0,
            poseidon_builtin: 0,
            keccak_builtin: 0,
            segment_arena_builtin: 0,
            output_builtin: 0,
        }
    }

    /// Whether the sum of two usages can be held.
    pub open spec fn fits_with(self, other: ExecutionResources) -> bool {
        &&& self.n_steps + other.n_steps <= usize::MAX
        &&& self.n_memory_holes + other.n_memory_holes <= usize::MAX
        &&& self.pedersen_builtin + other.pedersen_builtin <= usize::MAX
        &&& self.range_check_builtin + other.range_check_builtin <= usize::MAX
        &&& self.ecdsa_builtin + other.ecdsa_builtin <= usize::MAX
        &&& self.bitwise_builtin + other.bitwise_builtin <= usize::MAX
        &&& self.ec_op_builtin + other.ec_op_builtin <= usize::MAX
        &&& self.poseidon_builtin + other.poseidon_builtin <= usize::MAX
        &&& self.keccak_builtin + other.keccak_builtin <= usize::MAX
        &&& self.segment_arena_builtin + other.segment_arena_builtin <= usize::MAX
        &&& self.output_builtin + other.output_builtin <= usize::MAX
    }

    /// The sum of two usages, counter by counter.
    pub open spec fn spec_plus(self, other: ExecutionResources) -> ExecutionResources {
        ExecutionResources {
            n_steps: (self.n_steps + other.n_steps) as usize,
            n_memory_holes: (self.n_memory_holes + other.n_memory_holes) as usize,
            pedersen_builtin: (self.pedersen_builtin + other.pedersen_builtin) as usize,
            range_check_builtin: (self.range_check_builtin + other.range_check_builtin) as usize,
            ecdsa_builtin: (self.ecdsa_builtin + other.ecdsa_builtin) as usize,
            bitwise_builtin: (self.bitwise_builtin + other.bitwise_builtin) as usize,
            ec_op_builtin: (self.ec_op_builtin + other.ec_op_builtin) as usize,
            poseidon_builtin: (self.poseidon_builtin + other.poseidon_builtin) as usize,
            keccak_builtin: (self.keccak_builtin + other.keccak_builtin) as usize,
            segment_arena_builtin: (self.segment_arena_builtin + other.segment_arena_builtin) as usize,
            output_builtin: (self.output_builtin + other.output_builtin) as usize,
        }
    }

    /// Adds two usages counter by counter, unless a sum cannot be held.
    pub fn checked_plus(&self, other: &ExecutionResources) -> (r: Option<ExecutionResources>)
        ensures
            r == (if self.fits_with(*other) {
                Some(self.spec_plus(*other))
            } else {
                None
            }),
    {
        let n_steps = self.n_steps.checked_add(other.n_steps);
        let n_memory_holes = self.n_memory_holes.checked_add(other.n_memory_holes);
        let pedersen_builtin = self.pedersen_builtin.checked_add(other.pedersen_builtin);
        let range_check_builtin = self.range_check_builtin.checked_add(other.range_check_builtin);
        let ecdsa_builtin = self.ecdsa_builtin.checked_add(other.ecdsa_builtin);
        let bitwise_builtin = self.bitwise_builtin.checked_add(other.bitwise_builtin);
        let ec_op_builtin = self.ec_op_builtin.checked_add(other.ec_op_builtin);
        let poseidon_builtin = self.poseidon_builtin.checked_add(other.poseidon_builtin);
        let keccak_builtin = self.keccak_builtin.checked_add(other.keccak_builtin);
        let segment_arena_builtin = self.segment_arena_builtin.checked_add(
            other.segment_arena_builtin,
        );
        let output_builtin = self.output_builtin.checked_add(other.output_builtin);
        match (
            n_steps,
            n_memory_holes,
            pedersen_builtin,
            range_check_builtin,
            ecdsa_builtin,
            bitwise_builtin,
            ec_op_builtin,
            poseidon_builtin,
            keccak_builtin,
            segment_arena_builtin,
            output_builtin,
        ) {
            (
                Some(a),
                Some(b),
                Some(c),
                Some(d),
                Some(e),
                Some(f),
                Some(g),
                Some(h),
                Some(i),
                Some(j),
                Some(k),
            ) => Some(
                ExecutionResources {
                    n_steps: a,
                    n_memory_holes: b,
                    pedersen_builtin: c,
                    range_check_builtin: d,
                    ecdsa_builtin: e,
                    bitwise_builtin: f,
                    ec_op_builtin: g,
                    poseidon_builtin: h,
                    keccak_builtin: i,
                    segment_arena_builtin: j,
                    output_builtin: k,
                },
            ),
            _ => None,
        }
    }
}

/// The record of one entry-point run; `internal_calls` makes it a tree.
#[derive(Debug, PartialEq, Eq)]
pub struct CallInfo {
    pub caller_address: Address,
    pub call_type: Option<CallType>,
    pub contract_address: Address,
    pub code_address: Option<Address>,
    pub class_hash: Option<ClassHash>,
    pub entry_point_selector: Option<Felt>,
    pub entry_point_type: Option<EntryPointType>,
    pub calldata: Vec<Felt>,
    pub retdata: Vec<Felt>,
    pub execution_resources: ExecutionResources,
    pub events: Vec<OrderedEvent>,
    pub l2_to_l1_messages: Vec<OrderedL2ToL1Message>,
    pub storage_read_values: Vec<Felt>,
    pub accessed_storage_keys: Vec<Felt>,
    pub internal_calls: Vec<CallInfo>,
    pub gas_consumed: u128,
    pub failure_flag: bool,
}

/// What a [`CallInfo`] holds.
pub struct CallInfoView {
    pub caller_address: nat,
    pub call_type: Option<CallType>,
    pub contract_address: nat,
    pub code_address: Option<nat>,
    pub class_hash: Option<nat>,
    pub entry_point_selector: Option<nat>,
    pub entry_point_type: Option<EntryPointType>,
    pub calldata: Seq<nat>,
    pub retdata: Seq<nat>,
    pub execution_resources: ExecutionResources,
    pub events: Seq<OrderedEventView>,
    pub l2_to_l1_messages: Seq<OrderedL2ToL1MessageView>,
    pub storage_read_values: Seq<nat>,
    /// The keys that the run touched, each once, in the order of first use.
    pub accessed_storage_keys: Seq<nat>,
    pub internal_calls: Seq<CallInfoView>,
    pub gas_consumed: nat,
    pub failure_flag: bool,
}

/// The number behind an optional field element.
pub open spec fn opt_felt_view(f: Option<Felt>) -> Option<nat> {
    match f {
        Some(x) => Some(x@),
        None => None,
    }
}

/// The number behind an optional address.
pub open spec fn opt_address_view(a: Option<Address>) -> Option<nat> {
    match a {
        Some(x) => Some(x@),
        None => None,
    }
}

/// What a call record holds, children included.
pub open spec fn call_info_view(c: CallInfo) -> CallInfoView
    decreases c,
{
    CallInfoView {
        caller_address: c.caller_address@,
        call_type: c.call_type,
        contract_address: c.contract_address@,
        code_address: opt_address_view(c.code_address),
        class_hash: opt_felt_view(c.class_hash),
        entry_point_selector: opt_felt_view(c.entry_point_selector),
        entry_point_type: c.entry_point_type,
        calldata: felts_view(c.calldata@),
        retdata: felts_view(c.retdata@),
        execution_resources: c.execution_resources,
        events: events_view(c.events@),
        l2_to_l1_messages: messages_view(c.l2_to_l1_messages@),
        storage_read_values: felts_view(c.storage_read_values@),
        accessed_storage_keys: felts_view(c.accessed_storage_keys@),
        internal_calls: Seq::new(
            c.internal_calls@.len(),
            |i: int|
                if 0 <= i < c.internal_calls@.len() {
                    call_info_view(c.internal_calls@[i])
                } else {
                    arbitrary()
                },
        ),
        gas_consumed: c.gas_consumed as nat,
        failure_flag: c.failure_flag,
    }
}

impl View for CallInfo {
    type V = CallInfoView;

    open spec fn view(&self) -> CallInfoView {
        call_info_view(*self)
    }
}

/// What a sequence of call records holds.
pub open spec fn calls_view(s: Seq<CallInfo>) -> Seq<CallInfoView> {
    s.map_values(|c: CallInfo| c@)
}

/// The calls of the tree under `call` in depth-first pre-order, where of the
/// children of `call` itself only the first `n` are followed.
pub open spec fn call_topology_upto(call: CallInfoView, n: nat) -> Seq<CallInfoView>
    decreases call, n,
{
    if n == 0 || n > call.internal_calls.len() {
        seq![call]
    } else {
        let child = call.internal_calls[n - 1];
        call_topology_upto(call, (n - 1) as nat) + call_topology_upto(
            child,
            child.internal_calls.len(),
        )
    }
}

/// Every call of the tree under `call`, in depth-first pre-order: the call
/// itself, then the tree under each of its children in turn.
pub open spec fn call_topology(call: CallInfoView) -> Seq<CallInfoView> {
    call_topology_upto(call, call.internal_calls.len())
}

fn clone_events(v: &Vec<OrderedEvent>) -> (r: Vec<OrderedEvent>)
    ensures
        events_view(r@) == events_view(v@),
{
    let mut r: Vec<OrderedEvent> = Vec::new();
    let mut i: usize = 0;
    while i < v.len()
        invariant
            0 <= i <= v.len(),
            r@.len() == i,
            forall|j: int| 0 <= j < i ==> r@[j]@ == v@[j]@,
        decreases v.len() - i,
    {
        r.push(v[i].clone());
        i += 1;
    }
    assert(events_view(r@) =~= events_view(v@));
    r
}

fn clone_messages(v: &Vec<OrderedL2ToL1Message>) -> (r: Vec<OrderedL2ToL1Message>)
    ensures
        messages_view(r@) == messages_view(v@),
{
    let mut r: Vec<OrderedL2ToL1Message> = Vec::new();
    let mut i: usize = 0;
    while i < v.len()
        invariant
            0 <= i <= v.len(),
            r@.len() == i,
            forall|j: int| 0 <= j < i ==> r@[j]@ == v@[j]@,
        decreases v.len() - i,
    {
        r.push(v[i].clone());
        i += 1;
    }
    assert(messages_view(r@) =~= messages_view(v@));
    r
}

impl Clone for CallInfo {
    fn clone(&self) -> (r: CallInfo)
        ensures
            r@ == self@,
        decreases self,
    {
        let mut internal_calls: Vec<CallInfo> = Vec::new();
        let mut i: usize = 0;
        while i < self.internal_calls.len()
            invariant
                0 <= i <= self.internal_calls.len(),
                internal_calls@.len() == i,
                forall|j: int| 0 <= j < i ==> internal_calls@[j]@ == self.internal_calls@[j]@,
            decreases self.internal_calls.len() - i,
        {
            internal_calls.push(self.internal_calls[i].clone());
            i += 1;
        }
        let r = CallInfo {
            caller_address: self.caller_address,
            call_type: self.call_type,
            contract_address: self.contract_address,
            code_address: self.code_address,
            class_hash: self.class_hash,
            entry_point_selector: self.entry_point_selector,
            entry_point_type: self.entry_point_type,
            calldata: clone_felts(&self.calldata),
            retdata: clone_felts(&self.retdata),
            execution_resources: self.execution_resources,
            events: clone_events(&self.events),
            l2_to_l1_messages: clone_messages(&self.l2_to_l1_messages),
            storage_read_values: clone_felts(&self.storage_read_values),
            accessed_storage_keys: clone_felts(&self.accessed_storage_keys),
            internal_calls,
            gas_consumed: self.gas_consumed,
            failure_flag: self.failure_flag,
        };
        assert(r@.internal_calls =~= self@.internal_calls);
        r
    }
}

impl CallInfo {
    /// Lists the calls of this tree in depth-first pre-order.
    pub fn gen_call_topology(&self) -> (calls: Vec<CallInfo>)
        ensures
            calls_view(calls@) == call_topology(self@),
        decreases self,
    {
        let mut calls: Vec<CallInfo> = Vec::new();
        calls.push(self.clone());
        assert(calls_view(calls@) =~= call_topology_upto(self@, 0));
        let mut i: usize = 0;
        while i < self.internal_calls.len()
            invariant
                0 <= i <= self.internal_calls.len(),
                calls_view(calls@) == call_topology_upto(self@, i as nat),
            decreases self.internal_calls.len() - i,
        {
            let mut below = self.internal_calls[i].gen_call_topology();
            let ghost before = calls@;
            let ghost added = below@;
            calls.append(&mut below);
            assert(calls_view(calls@) =~= calls_view(before) + calls_view(added));
            assert(self@.internal_calls[i as int] == self.internal_calls@[i as int]@);
            i += 1;
        }
        calls
    }
}


impl CallInfo {
    /// The record of a call of which nothing is known but who called whom.
    pub fn empty(caller_address: Address, contract_address: Address) -> (r: CallInfo)
        ensures
            r@ == CallInfoView::empty(caller_address@, contract_address@),
    {
        let r = CallInfo {
            caller_address,
            call_type: None,
            contract_address,
            code_address: None,
            class_hash: None,
            entry_point_selector: None,
            entry_point_type: None,
            calldata: Vec::new(),
            retdata: Vec::new(),
            execution_resources: ExecutionResources::new(),
            events: Vec::new(),
            l2_to_l1_messages: Vec::new(),
            storage_read_values: Vec::new(),
            accessed_storage_keys: Vec::new(),
            internal_calls: Vec::new(),
            gas_consumed: 0,
            failure_flag: false,
        };
        assert(r@.calldata =~= Seq::<nat>::empty());
        assert(r@.retdata =~= Seq::<nat>::empty());
        assert(r@.events =~= Seq::<OrderedEventView>::empty());
        assert(r@.l2_to_l1_messages =~= Seq::<OrderedL2ToL1MessageView>::empty());
        assert(r@.storage_read_values =~= Seq::<nat>::empty());
        assert(r@.accessed_storage_keys =~= Seq::<nat>::empty());
        assert(r@.internal_calls =~= Seq::<CallInfoView>::empty());
        r
    }

    /// The record of the deployment of a contract whose class has no
    /// constructor: a constructor call that ran nothing.
    pub fn empty_constructor_call(
        contract_address: Address,
        caller_address: Address,
        class_hash: Option<ClassHash>,
    ) -> (r: CallInfo)
        ensures
            r@ == (CallInfoView {
                call_type: Some(CallType::Call),
                class_hash: opt_felt_view(class_hash),
                entry_point_selector: Some(
                    crate::definitions::constants::spec_constructor_entry_point_selector(),
                ),
                entry_point_type: Some(EntryPointType::Constructor),
                ..CallInfoView::empty(caller_address@, contract_address@)
            }),
    {
        let mut r = CallInfo::empty(caller_address, contract_address);
        r.call_type = Some(CallType::Call);
        r.class_hash = class_hash;
        r.entry_point_selector = Some(
            crate::definitions::constants::constructor_entry_point_selector(),
        );
        r.entry_point_type = Some(EntryPointType::Constructor);
        assert(r@.internal_calls =~= Seq::<CallInfoView>::empty());
        r
    }
}

impl CallInfoView {
    /// The record of a call of which nothing is known but who called whom.
    pub open spec fn empty(caller_address: nat, contract_address: nat) -> CallInfoView {
        CallInfoView {
            caller_address,
            call_type: None,
            contract_address,
            code_address: None,
            class_hash: None,
            entry_point_selector: None,
            entry_point_type: None,
            calldata: Seq::empty(),
            retdata: Seq::empty(),
            execution_resources: ExecutionResources::zero(),
            events: Seq::empty(),
            l2_to_l1_messages: Seq::empty(),
            storage_read_values: Seq::empty(),
            accessed_storage_keys: Seq::empty(),
            internal_calls: Seq::empty(),
            gas_consumed: 0,
            failure_flag: false,
        }
    }
}

/// The view of an optional call record.
pub open spec fn opt_call_view(c: Option<CallInfo>) -> Option<CallInfoView> {
    match c {
        Some(x) => Some(x@),
        None => None,
    }
}

/// A call to make: which entry point of which contract, on whose behalf and
/// with what.
#[derive(Debug, PartialEq, Eq)]
pub struct ExecutionEntryPoint {
    pub call_type: CallType,
    pub contract_address: Address,
    pub code_address: Option<Address>,
    pub class_hash: Option<ClassHash>,
    pub calldata: Vec<Felt>,
    pub caller_address: Address,
    pub entry_point_selector: Felt,
    pub entry_point_type: EntryPointType,
    pub initial_gas: u128,
}

/// What an [`ExecutionEntryPoint`] holds.
pub struct ExecutionEntryPointView {
    pub call_type: CallType,
    pub contract_address: nat,
    pub code_address: Option<nat>,
    pub class_hash: Option<nat>,
    pub calldata: Seq<nat>,
    pub caller_address: nat,
    pub entry_point_selector: nat,
    pub entry_point_type: EntryPointType,
    pub initial_gas: nat,
}

impl View for ExecutionEntryPoint {
    type V = ExecutionEntryPointView;

    open spec fn view(&self) -> ExecutionEntryPointView {
        ExecutionEntryPointView {
            call_type: self.call_type,
            contract_address: self.contract_address@,
            code_address: opt_address_view(self.code_address),
            class_hash: opt_felt_view(self.class_hash),
            calldata: felts_view(self.calldata@),
            caller_address: self.caller_address@,
            entry_point_selector: self.entry_point_selector@,
            entry_point_type: self.entry_point_type,
            initial_gas: self.initial_gas as nat,
        }
    }
}

impl ExecutionEntryPoint {
    /// A call to make. Without a call type it is an ordinary call.
    pub fn new(
        contract_address: Address,
        calldata: Vec<Felt>,
        entry_point_selector: Felt,
        caller_address: Address,
        entry_point_type: EntryPointType,
        call_type: Option<CallType>,
        class_hash: Option<ClassHash>,
        initial_gas: u128,
    ) -> (r: ExecutionEntryPoint)
        ensures
            r@ == (ExecutionEntryPointView {
                call_type: match call_type {
                    Some(t) => t,
                    None => CallType::Call,
                },
                contract_address: contract_address@,
                code_address: None,
                class_hash: opt_felt_view(class_hash),
                calldata: felts_view(calldata@),
                caller_address: caller_address@,
                entry_point_selector: entry_point_selector@,
                entry_point_type,
                initial_gas: initial_gas as nat,
            }),
    {
        ExecutionEntryPoint {
            call_type: match call_type {
                Some(t) => t,
                None => CallType::Call,
            },
            contract_address,
            code_address: None,
            class_hash,
            calldata,
            caller_address,
            entry_point_selector,
            entry_point_type,
            initial_gas,
        }
    }
}

impl Clone for ExecutionEntryPoint {
    fn clone(&self) -> (r: ExecutionEntryPoint)
        ensures
            r@ == self@,
    {
        ExecutionEntryPoint {
            call_type: self.call_type,
            contract_address: self.contract_address,
            code_address: self.code_address,
            class_hash: self.class_hash,
            calldata: clone_felts(&self.calldata),
            caller_address: self.caller_address,
            entry_point_selector: self.entry_point_selector,
            entry_point_type: self.entry_point_type,
            initial_gas: self.initial_gas,
        }
    }
}

/// What stays the same for every call of one transaction, and the counters
/// that order its events and messages.
#[derive(Debug, PartialEq, Eq)]
pub struct TransactionExecutionContext {
    pub n_emitted_events: u64,
    pub version: Felt,
    pub account_contract_address: Address,
    pub max_fee: u128,
    pub transaction_hash: Felt,
    pub signature: Vec<Felt>,
    pub nonce: Felt,
    pub n_sent_messages: u64,
    pub n_steps: u64,
}

/// What a [`TransactionExecutionContext`] holds.
pub struct TransactionExecutionContextView {
    pub n_emitted_events: nat,
    pub version: nat,
    pub account_contract_address: nat,
    pub max_fee: nat,
    pub transaction_hash: nat,
    pub signature: Seq<nat>,
    pub nonce: nat,
    pub n_sent_messages: nat,
    pub n_steps: nat,
}

impl View for TransactionExecutionContext {
    type V = TransactionExecutionContextView;

    open spec fn view(&self) -> TransactionExecutionContextView {
        TransactionExecutionContextView {
            n_emitted_events: self.n_emitted_events as nat,
            version: self.version@,
            account_contract_address: self.account_contract_address@,
            max_fee: self.max_fee as nat,
            transaction_hash: self.transaction_hash@,
            signature: felts_view(self.signature@),
            nonce: self.nonce@,
            n_sent_messages: self.n_sent_messages as nat,
            n_steps: self.n_steps as nat,
        }
    }
}

impl TransactionExecutionContext {
    /// The context of a transaction that has emitted and sent nothing yet.
    pub fn new(
        account_contract_address: Address,
        transaction_hash: Felt,
        signature: Vec<Felt>,
        max_fee: u128,
        nonce: Felt,
        n_steps: u64,
        version: Felt,
    ) -> (r: TransactionExecutionContext)
        ensures
            r@ == (TransactionExecutionContextView {
                n_emitted_events: 0,
                version: version@,
                account_contract_address: account_contract_address@,
                max_fee: max_fee as nat,
                transaction_hash: transaction_hash@,
                signature: felts_view(signature@),
                nonce: nonce@,
                n_sent_messages: 0,
                n_steps: n_steps as nat,
            }),
    {
        TransactionExecutionContext {
            n_emitted_events: 0,
            version,
            account_contract_address,
            max_fee,
            transaction_hash,
            signature,
            nonce,
            n_sent_messages: 0,
            n_steps,
        }
    }
}

/// What a transaction used, resource by resource.
#[derive(Clone, Copy, Debug, PartialEq, Eq, Structural)]
pub struct ResourceUsage {
    pub l1_gas_usage: usize,
    pub cairo_usage: ExecutionResources,
}

/// The report of the execution of a transaction.
#[derive(Debug, PartialEq, Eq)]
pub struct TransactionExecutionInfo {
    pub validate_info: Option<CallInfo>,
    pub call_info: Option<CallInfo>,
    pub fee_transfer_info: Option<CallInfo>,
    pub actual_fee: u128,
    pub actual_resources: ResourceUsage,
    pub tx_type: Option<TransactionType>,
}

/// What a [`TransactionExecutionInfo`] holds.
pub struct TransactionExecutionInfoView {
    pub validate_info: Option<CallInfoView>,
    pub call_info: Option<CallInfoView>,
    pub fee_transfer_info: Option<CallInfoView>,
    pub actual_fee: nat,
    pub actual_resources: ResourceUsage,
    pub tx_type: Option<TransactionType>,
}

impl View for TransactionExecutionInfo {
    type V = TransactionExecutionInfoView;

    open spec fn view(&self) -> TransactionExecutionInfoView {
        TransactionExecutionInfoView {
            validate_info: opt_call_view(self.validate_info),
            call_info: opt_call_view(self.call_info),
            fee_transfer_info: opt_call_view(self.fee_transfer_info),
            actual_fee: self.actual_fee as nat,
            actual_resources: self.actual_resources,
            tx_type: self.tx_type,
        }
    }
}

impl TransactionExecutionInfo {
    /// The report of the part of an execution that charges no fee.
    pub fn create_concurrent_stage_execution_info(
        validate_info: Option<CallInfo>,
        call_info: Option<CallInfo>,
        actual_resources: ResourceUsage,
        tx_type: Option<TransactionType>,
    ) -> (r: TransactionExecutionInfo)
        ensures
            r@ == (TransactionExecutionInfoView {
                validate_info: opt_call_view(validate_info),
                call_info: opt_call_view(call_info),
                fee_transfer_info: None,
                actual_fee: 0,
                actual_resources,
                tx_type,
            }),
    {
        TransactionExecutionInfo {
            validate_info,
            call_info,
            fee_transfer_info: None,
            actual_fee: 0,
            actual_resources,
            tx_type,
        }
    }

    /// The report of a whole execution: that of the part that charges no
    /// fee, with the fee and the record of its transfer.
    pub fn from_concurrent_state_execution_info(
        concurrent_execution_info: TransactionExecutionInfo,
        actual_fee: u128,
        fee_transfer_info: Option<CallInfo>,
    ) -> (r: TransactionExecutionInfo)
        ensures
            r@ == (TransactionExecutionInfoView {
                fee_transfer_info: opt_call_view(fee_transfer_info),
                actual_fee: actual_fee as nat,
                ..concurrent_execution_info@
            }),
    {
        TransactionExecutionInfo {
            validate_info: concurrent_execution_info.validate_info,
            call_info: concurrent_execution_info.call_info,
            fee_transfer_info,
            actual_fee,
            actual_resources: concurrent_execution_info.actual_resources,
            tx_type: concurrent_execution_info.tx_type,
        }
    }
}

} // verus!
