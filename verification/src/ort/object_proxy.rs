//! The object proxy: an object of the machine whose behaviour belongs to the host.
//!
//! A proxy holds an opaque datum of the host, a frozen flag, the names of its const
//! fields, a table of values held by field name, and the addresses of the routines that
//! the host registered. The machine's questions are answered from that state alone or
//! turned into a request for one call of a registered routine; a routine that was not
//! registered makes the operation fail.

use crate::fault::Fault;
use crate::foreign::{destructor_due, DestructorCall, ForeignFn};
use crate::ort::buffer::{c_name_bytes, fits_name_buffer, NameBuffer};
use crate::ort::field_table::{
    assign,
    distinct_names,
    erase,
    lemma_assign,
    lemma_erase,
    lookup,
    object_ids,
    FieldTable,
    Fields,
    NameSet,
};
use crate::ort::value::Value;
use crate::width::{count_low_u32, low_32};
use vstd::prelude::*;
use vstd::string::StringExecFns;

verus! {

/// Why an operation on a proxy failed.
#[derive(Clone, Copy, Debug, PartialEq, Eq, Structural)]
pub enum ProxyError {
    /// The proxy was called and has no call routine.
    NotCallable,
    /// A field was read that the proxy does not hold, and it has no routine for fields.
    NotImplemented,
    /// A routine of the host answered with a nonzero status.
    ProxiedError,
}

impl ProxyError {
    pub open spec fn message_spec(self) -> Seq<char> {
        match self {
            ProxyError::NotCallable => "Not callable"@,
            ProxyError::NotImplemented => "Not implemented"@,
            ProxyError::ProxiedError => "Proxied object returns error"@,
        }
    }

    pub fn message(&self) -> (text: String)
        ensures
            text@ == self.message_spec(),
    {
        match self {
            ProxyError::NotCallable => String::from_str("Not callable"),
            ProxyError::NotImplemented => String::from_str("Not implemented"),
            ProxyError::ProxiedError => String::from_str("Proxied object returns error"),
        }
    }

    /// The error of the machine that this failure is raised as.
    pub fn into_fault(self) -> (fault: Fault)
        ensures
            fault matches Fault::Vm(text) && text@ == self.message_spec(),
    {
        Fault::Vm(self.message())
    }
}

/// What a proxy is, as far as its behaviour goes.
pub ghost struct ProxyState {
    pub frozen: bool,
    pub const_fields: Set<Seq<char>>,
    pub data: usize,
    pub destructor: Option<ForeignFn>,
    pub on_call: Option<ForeignFn>,
    pub on_get_field: Option<ForeignFn>,
    pub on_set_field: Option<ForeignFn>,
    pub on_typename: Option<ForeignFn>,
    pub on_to_i64: Option<ForeignFn>,
    pub on_to_f64: Option<ForeignFn>,
    pub on_to_str: Option<ForeignFn>,
    pub on_to_string: Option<ForeignFn>,
    pub on_to_bool: Option<ForeignFn>,
    pub static_fields: Fields,
}

/// How a read of a field is answered.
pub ghost enum FieldAnswer {
    /// The proxy holds the field: this is its value.
    Held(Value),
    /// The proxy does not hold it: this routine of the host is asked.
    Asked(ForeignFn),
    /// The proxy does not hold it and has no routine to ask.
    Refused,
}

/// One change that the host can make to a proxy.
pub ghost enum ProxyChange {
    Freeze,
    AddConstField(Seq<char>),
    SetStaticField(Seq<char>, Option<Value>),
    SetDestructor(Option<ForeignFn>),
    SetOnCall(Option<ForeignFn>),
    SetOnGetField(Option<ForeignFn>),
}

impl ProxyState {
    /// A proxy as it is created: not frozen, no const field, no routine, no field held.
    pub open spec fn fresh(data: usize) -> ProxyState {
        ProxyState {
            frozen: false,
            const_fields: Set::empty(),
            data,
            destructor: None,
            on_call: None,
            on_get_field: None,
            on_set_field: None,
            on_typename: None,
            on_to_i64: None,
            on_to_f64: None,
            on_to_str: None,
            on_to_string: None,
            on_to_bool: None,
            static_fields: Seq::empty(),
        }
    }

    /// Whether the machine must treat the field as immutable: every field of a frozen
    /// proxy, and the fields marked const of any other.
    pub open spec fn has_const_field(self, name: Seq<char>) -> bool {
        self.frozen || self.const_fields.contains(name)
    }

    /// The objects that the proxy keeps alive: those that its held values refer to.
    /// What the host's routines would answer does not count.
    pub open spec fn children(self) -> Seq<usize> {
        object_ids(self.static_fields)
    }

    /// Held fields first, then the host's routine, else refusal.
    pub open spec fn field_answer(self, name: Seq<char>) -> FieldAnswer {
        match lookup(self.static_fields, name) {
            Some(value) => FieldAnswer::Held(value),
            None => match self.on_get_field {
                Some(routine) => FieldAnswer::Asked(routine),
                None => FieldAnswer::Refused,
            },
        }
    }

    /// Storing a value holds it under the name; storing none removes the field.
    pub open spec fn with_static_field(self, name: Seq<char>, value: Option<Value>) -> ProxyState {
        match value {
            Some(v) => ProxyState { static_fields: assign(self.static_fields, name, v), ..self },
            None => ProxyState { static_fields: erase(self.static_fields, name), ..self },
        }
    }

    pub open spec fn after(self, change: ProxyChange) -> ProxyState {
        match change {
            ProxyChange::Freeze => ProxyState { frozen: true, ..self },
            ProxyChange::AddConstField(name) => ProxyState {
                const_fields: self.const_fields.insert(name),
                ..self
            },
            ProxyChange::SetStaticField(name, value) => self.with_static_field(name, value),
            ProxyChange::SetDestructor(routine) => ProxyState { destructor: routine, ..self },
            ProxyChange::SetOnCall(routine) => ProxyState { on_call: routine, ..self },
            ProxyChange::SetOnGetField(routine) => ProxyState { on_get_field: routine, ..self },
        }
    }

    /// The destructor call that a release owes.
    pub open spec fn due(self) -> Option<DestructorCall> {
        destructor_due(self.destructor, self.data)
    }

    /// The proxy after a release: nothing is owed any more.
    pub open spec fn released(self) -> ProxyState {
        ProxyState { destructor: None, ..self }
    }

    /// The state after a series of changes, made in order.
    pub open spec fn after_all(self, changes: Seq<ProxyChange>) -> ProxyState
        decreases changes.len(),
    {
        if changes.len() == 0 {
            self
        } else {
            self.after_all(changes.drop_last()).after(changes.last())
        }
    }
}

/// A frozen proxy stays frozen, and a const field stays const, whatever the host changes
/// afterwards.
pub proof fn lemma_const_is_permanent(s: ProxyState, changes: Seq<ProxyChange>, name: Seq<char>)
    ensures
        s.frozen ==> s.after_all(changes).frozen,
        s.const_fields.contains(name) ==> s.after_all(changes).const_fields.contains(name),
        s.has_const_field(name) ==> s.after_all(changes).has_const_field(name),
    decreases changes.len(),
{
    if changes.len() > 0 {
        lemma_const_is_permanent(s, changes.drop_last(), name);
    }
}

/// Once a proxy was frozen, every field name is const: whichever names were marked const
/// before, and whatever the host changes afterwards.
pub proof fn lemma_frozen_has_every_const_field(
    s: ProxyState,
    later: Seq<ProxyChange>,
    name: Seq<char>,
)
    ensures
        s.after(ProxyChange::Freeze).after_all(later).has_const_field(name),
{
    lemma_const_is_permanent(s.after(ProxyChange::Freeze), later, name);
}

/// No change that the host can make lets a field name be held twice.
pub proof fn lemma_changes_keep_names_distinct(s: ProxyState, changes: Seq<ProxyChange>)
    requires
        distinct_names(s.static_fields),
    ensures
        distinct_names(s.after_all(changes).static_fields),
    decreases changes.len(),
{
    if changes.len() > 0 {
        lemma_changes_keep_names_distinct(s, changes.drop_last());
        let before = s.after_all(changes.drop_last());
        match changes.last() {
            ProxyChange::SetStaticField(name, Some(value)) => {
                lemma_assign(before.static_fields, name, value, name);
            },
            ProxyChange::SetStaticField(name, None) => {
                lemma_erase(before.static_fields, name, name);
            },
            _ => {},
        }
    }
}

/// A value stored under a name is what a read of that name yields, and the read of
/// another name is answered as before.
pub proof fn lemma_stored_field_is_held(
    s: ProxyState,
    name: Seq<char>,
    value: Value,
    other: Seq<char>,
)
    requires
        distinct_names(s.static_fields),
    ensures
        s.with_static_field(name, Some(value)).field_answer(name) == FieldAnswer::Held(value),
        other != name ==> s.with_static_field(name, Some(value)).field_answer(other)
            == s.field_answer(other),
{
    lemma_assign(s.static_fields, name, value, other);
}

/// Storing an absent value removes the field: a read of the name then goes to the
/// host's field routine, or fails where there is none. The read of another name is
/// answered as before.
pub proof fn lemma_removed_field_falls_through(s: ProxyState, name: Seq<char>, other: Seq<char>)
    requires
        distinct_names(s.static_fields),
    ensures
        lookup(s.with_static_field(name, None).static_fields, name) is None,
        s.with_static_field(name, None).field_answer(name) == (match s.on_get_field {
            Some(routine) => FieldAnswer::Asked(routine),
            None => FieldAnswer::Refused,
        }),
        other != name ==> s.with_static_field(name, None).field_answer(other) == s.field_answer(
            other,
        ),
{
    lemma_erase(s.static_fields, name, other);
}

/// The destructor of a proxy runs exactly once: the release of a proxy that holds one
/// owes its call, with the proxy's datum, and a release after that owes nothing.
pub proof fn lemma_proxy_destructor_runs_once(s: ProxyState)
    ensures
        s.destructor matches Some(routine) ==> s.due() == Some(
            DestructorCall { routine, data: s.data },
        ),
        s.destructor is None ==> s.due() is None,
        s.released().due() is None,
        s.released().released() == s.released(),
{
}

/// A call that the host's call routine is owed.
#[derive(Debug)]
pub struct CallRequest<'a> {
    pub callback: ForeignFn,
    pub data: usize,
    /// The number of arguments, in the 32 bits that the routine reads.
    pub n_args: u32,
    /// The arguments, or `None` where there are none: the routine then gets no buffer.
    pub args: Option<&'a [Value]>,
    /// The content of the output slot before the call.
    pub ret_place: Value,
}

/// A call that the host's field routine is owed.
#[derive(Debug)]
pub struct FieldRequest {
    pub callback: ForeignFn,
    pub data: usize,
    /// The field's name, ended by a zero byte.
    pub name: NameBuffer,
    /// The content of the output slot before the call.
    pub ret_place: Value,
}

/// The answer to a read of a field.
#[derive(Debug)]
pub enum FieldLookup {
    /// The value that the proxy holds under the name.
    Found(Value),
    /// The host is to be asked.
    Delegate(FieldRequest),
}

/// An object whose behaviour is delegated to the host.
#[derive(Debug)]
pub struct ObjectProxy {
    frozen: bool,
    const_fields: NameSet,
    data: usize,
    destructor: Option<ForeignFn>,
    on_call: Option<ForeignFn>,
    on_get_field: Option<ForeignFn>,
    on_set_field: Option<ForeignFn>,
    on_typename: Option<ForeignFn>,
    on_to_i64: Option<ForeignFn>,
    on_to_f64: Option<ForeignFn>,
    on_to_str: Option<ForeignFn>,
    on_to_string: Option<ForeignFn>,
    on_to_bool: Option<ForeignFn>,
    static_fields: FieldTable,
}

impl View for ObjectProxy {
    type V = ProxyState;

    closed spec fn view(&self) -> ProxyState {
        ProxyState {
            frozen: self.frozen,
            const_fields: self.const_fields@,
            data: self.data,
            destructor: self.destructor,
            on_call: self.on_call,
            on_get_field: self.on_get_field,
            on_set_field: self.on_set_field,
            on_typename: self.on_typename,
            on_to_i64: self.on_to_i64,
            on_to_f64: self.on_to_f64,
            on_to_str: self.on_to_str,
            on_to_string: self.on_to_string,
            on_to_bool: self.on_to_bool,
            static_fields: self.static_fields@,
        }
    }
}

/// The outcome of a routine of the host: status 0 is success, anything else an error.
pub fn ensure_proxied_ok(err: i32) -> (r: Result<(), ProxyError>)
    ensures
        r == (if err == 0 {
            Ok::<(), ProxyError>(())
        } else {
            Err::<(), ProxyError>(ProxyError::ProxiedError)
        }),
{
    if err != 0 {
        Err(ProxyError::ProxiedError)
    } else {
        Ok(())
    }
}

impl ObjectProxy {
    pub fn new(data: usize) -> (proxy: ObjectProxy)
        ensures
            proxy@ == ProxyState::fresh(data),
    {
        ObjectProxy {
            frozen: false,
            const_fields: NameSet::new(),
            data,
            destructor: None,
            on_call: None,
            on_get_field: None,
            on_set_field: None,
            on_typename: None,
            on_to_i64: None,
            on_to_f64: None,
            on_to_str: None,
            on_to_string: None,
            on_to_bool: None,
            static_fields: FieldTable::new(),
        }
    }

    /// States what every proxy satisfies: no field name is held twice.
    pub fn fields_distinct(&self)
        ensures
            distinct_names(self@.static_fields),
    {
        self.static_fields.names_distinct();
    }

    /// The objects that the collector reaches through this proxy.
    pub fn get_children(&self) -> (children: Vec<usize>)
        ensures
            children@ == self@.children(),
    {
        self.static_fields.object_ids()
    }

    /// A call of the proxy with the arguments of the current frame. Without a call
    /// routine the proxy is not callable. With one, the routine is owed a call with the
    /// proxy's datum, the number of arguments and the arguments, and an output slot that
    /// holds `Null`.
    pub fn call<'a>(&self, args: &'a [Value]) -> (r: Result<CallRequest<'a>, ProxyError>)
        ensures
            match self@.on_call {
                None => r matches Err(ProxyError::NotCallable),
                Some(routine) => r matches Ok(request) && request.callback == routine
                    && request.data == self@.data && request.n_args == low_32(args@.len() as int)
                    && request.args == (if args@.len() > 0 {
                    Some(args)
                } else {
                    None
                }) && request.ret_place == Value::Null,
            },
    {
        match self.on_call {
            Some(routine) => {
                let n_args = args.len();
                Ok(
                    CallRequest {
                        callback: routine,
                        data: self.data,
                        n_args: count_low_u32(n_args),
                        args: if n_args > 0 {
                            Some(args)
                        } else {
                            None
                        },
                        ret_place: Value::Null,
                    },
                )
            },
            None => Err(ProxyError::NotCallable),
        }
    }

    /// The end of a request to the host: with status 0 the value that the routine left
    /// in the slot, with any other status an error.
    pub fn proxied_result(status: i32, ret_place: Value) -> (r: Result<Value, ProxyError>)
        ensures
            r == (if status == 0 {
                Ok::<Value, ProxyError>(ret_place)
            } else {
                Err::<Value, ProxyError>(ProxyError::ProxiedError)
            }),
    {
        match ensure_proxied_ok(status) {
            Ok(_) => Ok(ret_place),
            Err(e) => Err(e),
        }
    }

    /// A read of a field. A field that the proxy holds is answered at once. For any
    /// other the field routine is owed a call with the proxy's datum and the name, ended
    /// by a zero byte, and an output slot that holds `Null`. Without a field routine the
    /// read fails.
    pub fn get_field(&self, name: &str) -> (r: Result<FieldLookup, ProxyError>)
        requires
            fits_name_buffer(name@),
        ensures
            match self@.field_answer(name@) {
                FieldAnswer::Held(value) => r matches Ok(FieldLookup::Found(v)) && v == value,
                FieldAnswer::Asked(routine) => r matches Ok(FieldLookup::Delegate(request))
                    && request.callback == routine && request.data == self@.data && request.name@
                    == c_name_bytes(name@) && request.ret_place == Value::Null,
                FieldAnswer::Refused => r matches Err(ProxyError::NotImplemented),
            },
    {
        if let Some(value) = self.static_fields.get(name) {
            return Ok(FieldLookup::Found(value));
        }
        match self.on_get_field {
            Some(routine) => Ok(
                FieldLookup::Delegate(
                    FieldRequest {
                        callback: routine,
                        data: self.data,
                        name: NameBuffer::c_name(name),
                        ret_place: Value::Null,
                    },
                ),
            ),
            None => Err(ProxyError::NotImplemented),
        }
    }

    pub fn has_const_field(&self, name: &str) -> (is_const: bool)
        ensures
            is_const == self@.has_const_field(name@),
    {
        if self.frozen {
            true
        } else if self.const_fields.contains(name) {
            true
        } else {
            false
        }
    }

    /// Releases the proxy when the pool reclaims it: hands out the destructor call that
    /// is owed, and owes none afterwards.
    pub fn release(&mut self) -> (due: Option<DestructorCall>)
        ensures
            due == old(self)@.due(),
            final(self)@ == old(self)@.released(),
    {
        let due = match self.destructor {
            Some(routine) => Some(DestructorCall { routine, data: self.data }),
            None => None,
        };
        self.destructor = None;
        due
    }
}

pub fn hexagon_ort_object_proxy_create(data: usize) -> (proxy: ObjectProxy)
    ensures
        proxy@ == ProxyState::fresh(data),
{
    ObjectProxy::new(data)
}

pub fn hexagon_ort_object_proxy_get_data(p: &ObjectProxy) -> (data: usize)
    ensures
        data == p@.data,
{
    p.data
}

pub fn hexagon_ort_object_proxy_freeze(p: &mut ObjectProxy)
    ensures
        final(p)@ == old(p)@.after(ProxyChange::Freeze),
{
    p.frozen = true;
}

pub fn hexagon_ort_object_proxy_add_const_field(p: &mut ObjectProxy, name: &str)
    ensures
        final(p)@ == old(p)@.after(ProxyChange::AddConstField(name@)),
{
    p.const_fields.insert(name);
}

pub fn hexagon_ort_object_proxy_set_destructor(p: &mut ObjectProxy, f: Option<ForeignFn>)
    ensures
        final(p)@ == old(p)@.after(ProxyChange::SetDestructor(f)),
{
    p.destructor = f;
}

/// Holds `v` under the name `k`, or removes the field where `v` is absent.
pub fn hexagon_ort_object_proxy_set_static_field(p: &mut ObjectProxy, k: &str, v: Option<&Value>)
    ensures
        final(p)@ == old(p)@.after(
            ProxyChange::SetStaticField(
                k@,
                match v {
                    Some(value) => Some(*value),
                    None => None,
                },
            ),
        ),
{
    match v {
        None => {
            p.static_fields.remove(k);
        },
        Some(value) => {
            p.static_fields.insert(k, *value);
        },
    }
}

pub fn hexagon_ort_object_proxy_set_on_call(p: &mut ObjectProxy, f: Option<ForeignFn>)
    ensures
        final(p)@ == old(p)@.after(ProxyChange::SetOnCall(f)),
{
    p.on_call = f;
}

pub fn hexagon_ort_object_proxy_set_on_get_field(p: &mut ObjectProxy, f: Option<ForeignFn>)
    ensures
        final(p)@ == old(p)@.after(ProxyChange::SetOnGetField(f)),
{
    p.on_get_field = f;
}

} // verus!
