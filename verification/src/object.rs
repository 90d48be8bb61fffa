//! Proxy instances and the meta-object dispatcher.
//!
//! A `ProxyObject` is a stable index into a `ProxyArena` of instances; the
//! arena stands in for the garbage-collected heap, with Rust's shared and
//! exclusive borrows playing the role of the scoped read/write guards.
//!
//! Every property-access entry point runs the same skeleton: scan the
//! multiname's namespaces in declared order, let the first qualifying one
//! win, build a `QName`, and emit the delegate call for the operation's
//! reserved method name — or, when no namespace qualifies, apply the
//! operation-specific fallback.  Invoking the delegate is script
//! execution and belongs to the interpreter, so each operation returns a
//! `Dispatch` step: either the single `DelegateCall` to perform, or the
//! completed outcome.  The `complete_*` functions then say what the
//! operation makes of the delegate's result.

use crate::error::Error;
use crate::name::{resolve_qname, spec_resolve, Multiname};
use crate::value::{coerce_to_boolean, coerce_to_u32, spec_coerce_to_boolean, spec_coerce_to_u32,
    Value};
use vstd::prelude::*;

verus! {

/// Class metadata, as far as the fallback policy needs it: a sealed class
/// may not acquire properties beyond those declared; a dynamic class may.
#[derive(Clone, Copy, Debug, PartialEq, Eq)]
pub struct ClassDef {
    pub sealed: bool,
}

/// Generic base storage for an object instance.  Proxies never store
/// script-visible fields here; only the class metadata matters to the
/// dispatcher.
#[derive(Clone, Copy, Debug, PartialEq, Eq)]
pub struct ScriptObjectData {
    pub class: Option<ClassDef>,
}

/// The per-instance data of a proxy object.
#[derive(Clone, Copy, Debug, PartialEq, Eq)]
pub struct ProxyObjectData {
    /// Base script object
    pub base: ScriptObjectData,
}

/// The heap of proxy instances, addressed by stable indices.
pub struct ProxyArena {
    pub objects: Vec<ProxyObjectData>,
}

impl ProxyArena {
    pub fn new() -> (arena: ProxyArena)
        ensures
            arena.objects@.len() == 0,
    {
        ProxyArena { objects: Vec::new() }
    }
}

/// A handle to one proxy instance: a stable index into the arena.
#[derive(Clone, Copy, Debug, PartialEq, Eq)]
pub struct ProxyObject(pub usize);

/// The eight reserved delegate method names, one per operation kind.
/// Each stands for a qualified name under the single well-known reserved
/// namespace, so it cannot be shadowed by any script-visible identifier.
#[derive(Clone, Copy, Debug, PartialEq, Eq)]
pub enum DelegateMethod {
    GetProperty,
    SetProperty,
    CallProperty,
    DeleteProperty,
    HasProperty,
    NextNameIndex,
    NextName,
    NextValue,
}

/// One delegate invocation: the reserved method to call on the proxy
/// instance, and its arguments in order.
#[derive(Debug, PartialEq, Eq)]
pub struct DelegateCall {
    pub method: DelegateMethod,
    pub args: Vec<Value>,
}

/// The dispatcher's answer for one property operation: either the single
/// delegate call to perform — whose result the matching `complete_*`
/// function (or, for reads, the caller directly) turns into the
/// operation's outcome — or the already-completed fallback outcome.
#[derive(Debug, PartialEq, Eq)]
pub enum Dispatch<T> {
    Delegate(DelegateCall),
    Complete(T),
}

/// A value-for-value copy of an optional local name.
fn clone_local_name(local: &Option<String>) -> (r: Option<String>)
    ensures
        r == *local,
{
    match local {
        Option::None => Option::None,
        Option::Some(s) => Option::Some(s.clone()),
    }
}

/// A class instance allocator that allocates proxy instances.
///
/// Allocation appends one fresh instance, bound to the given class and
/// with empty base storage, and never fails.
pub fn proxy_allocator(arena: &mut ProxyArena, class: ClassDef) -> (r: Result<ProxyObject, Error>)
    ensures
        final(arena).objects@ == old(arena).objects@.push(
            ProxyObjectData { base: ScriptObjectData { class: Option::Some(class) } },
        ),
        r matches Ok(obj) && obj == (ProxyObject(old(arena).objects@.len() as usize)),
        r matches Ok(obj) && obj.wf(*final(arena)),
{
    let obj = ProxyObject(arena.objects.len());
    arena.objects.push(ProxyObjectData { base: ScriptObjectData { class: Option::Some(class) } });
    Result::Ok(obj)
}

impl ProxyObject {
    /// The handle points at an instance the arena actually holds.
    pub open spec fn wf(self, arena: ProxyArena) -> bool {
        self.0 < arena.objects@.len()
    }

    /// The class this instance was allocated with, if any.
    pub open spec fn spec_class(self, arena: ProxyArena) -> Option<ClassDef> {
        arena.objects@[self.0 as int].base.class
    }

    /// The fallback policy's pivot: an instance with no class definition
    /// counts as dynamic.
    pub open spec fn spec_is_sealed(self, arena: ProxyArena) -> bool {
        match self.spec_class(arena) {
            Option::Some(c) => c.sealed,
            Option::None => false,
        }
    }

    /// Shared scoped access to the instance's base storage.
    pub fn base<'a>(self, arena: &'a ProxyArena) -> (r: &'a ScriptObjectData)
        requires
            self.wf(*arena),
        ensures
            *r == arena.objects@[self.0 as int].base,
    {
        &arena.objects[self.0].base
    }

    /// Exclusive scoped access: replace the instance's base storage.
    pub fn set_base(self, arena: &mut ProxyArena, base: ScriptObjectData)
        requires
            self.wf(*old(arena)),
        ensures
            final(arena).objects@ == old(arena).objects@.update(
                self.0 as int,
                ProxyObjectData { base },
            ),
    {
        let slot = &mut arena.objects[self.0];
        *slot = ProxyObjectData { base };
    }

    /// The stable index that identifies this instance.
    pub fn as_index(self) -> (i: usize)
        ensures
            i == self.0,
    {
        self.0
    }

    /// The primitive value of a proxy instance is the instance itself.
    pub fn value_of(self) -> (r: Result<Value, Error>)
        ensures
            r == Result::<Value, Error>::Ok(Value::Object(self.0)),
    {
        Result::Ok(Value::Object(self.0))
    }

    /// The class definition this instance was allocated with.
    pub fn instance_of_class_definition(self, arena: &ProxyArena) -> (r: Option<ClassDef>)
        requires
            self.wf(*arena),
        ensures
            r == self.spec_class(*arena),
    {
        arena.objects[self.0].base.class
    }

    /// Whether the instance's class forbids ad-hoc properties.
    pub fn is_sealed(self, arena: &ProxyArena) -> (r: bool)
        requires
            self.wf(*arena),
        ensures
            r == self.spec_is_sealed(*arena),
    {
        match arena.objects[self.0].base.class {
            Option::Some(c) => c.sealed,
            Option::None => false,
        }
    }

    /// Property GET.  On the first qualifying namespace, delegate to
    /// `getProperty(qname)`; the delegate's result — success or failure —
    /// is the operation's result, unchanged.  With no qualifying
    /// namespace, a dynamic class yields the undefined value and a sealed
    /// class fails with `UndefinedProperty`.
    pub fn get_property_local(self, arena: &ProxyArena, multiname: &Multiname) -> (step: Dispatch<
        Result<Value, Error>,
    >)
        requires
            self.wf(*arena),
        ensures
            match spec_resolve(*multiname) {
                Option::Some(q) => step matches Dispatch::Delegate(c) && c.method
                    == DelegateMethod::GetProperty && c.args@ == seq![Value::QName(q)],
                Option::None => if self.spec_is_sealed(*arena) {
                    step == Dispatch::Complete(
                        Result::<Value, Error>::Err(Error::UndefinedProperty(multiname.local_name)),
                    )
                } else {
                    step == Dispatch::Complete(Result::<Value, Error>::Ok(Value::Undefined))
                },
            },
    {
        match resolve_qname(multiname) {
            Option::Some(qname) => {
                let mut args: Vec<Value> = Vec::new();
                args.push(Value::QName(qname));
                proof {
                    assert(args@ =~= seq![Value::QName(spec_resolve(*multiname)->0)]);
                }
                Dispatch::Delegate(DelegateCall { method: DelegateMethod::GetProperty, args })
            },
            Option::None => {
                if !self.is_sealed(arena) {
                    Dispatch::Complete(Result::Ok(Value::Undefined))
                } else {
                    Dispatch::Complete(
                        Result::Err(Error::UndefinedProperty(clone_local_name(&multiname.local_name))),
                    )
                }
            },
        }
    }

    /// Property SET.  On the first qualifying namespace, delegate to
    /// `setProperty(qname, value)`; `complete_set_property` discards the
    /// delegate's value and reports success.  With no qualifying
    /// namespace: a dynamic class silently drops the write when a local
    /// name is present (proxies never use base storage for script-visible
    /// fields) and fails with `InvalidSetTarget` when the name lacks any
    /// local component; a sealed class fails with `UndefinedProperty`.
    pub fn set_property_local(
        self,
        arena: &ProxyArena,
        multiname: &Multiname,
        value: Value,
    ) -> (step: Dispatch<Result<(), Error>>)
        requires
            self.wf(*arena),
        ensures
            match spec_resolve(*multiname) {
                Option::Some(q) => step matches Dispatch::Delegate(c) && c.method
                    == DelegateMethod::SetProperty && c.args@ == seq![Value::QName(q), value],
                Option::None => if self.spec_is_sealed(*arena) {
                    step == Dispatch::Complete(
                        Result::<(), Error>::Err(Error::UndefinedProperty(multiname.local_name)),
                    )
                } else if multiname.local_name is Some {
                    step == Dispatch::Complete(Result::<(), Error>::Ok(()))
                } else {
                    step == Dispatch::Complete(Result::<(), Error>::Err(Error::InvalidSetTarget))
                },
            },
    {
        match resolve_qname(multiname) {
            Option::Some(qname) => {
                let mut args: Vec<Value> = Vec::new();
                args.push(Value::QName(qname));
                args.push(value);
                proof {
                    assert(args@ =~= seq![Value::QName(spec_resolve(*multiname)->0), value]);
                }
                Dispatch::Delegate(DelegateCall { method: DelegateMethod::SetProperty, args })
            },
            Option::None => {
                if !self.is_sealed(arena) {
                    match &multiname.local_name {
                        Option::Some(_) => Dispatch::Complete(Result::Ok(())),
                        Option::None => Dispatch::Complete(Result::Err(Error::InvalidSetTarget)),
                    }
                } else {
                    Dispatch::Complete(
                        Result::Err(Error::UndefinedProperty(clone_local_name(&multiname.local_name))),
                    )
                }
            },
        }
    }

    /// Property CALL.  On the first qualifying namespace, delegate to
    /// `callProperty(qname, ...arguments)`, the QName followed by all
    /// original call arguments in order; the delegate's result is the
    /// operation's result, unchanged.  With no qualifying namespace the
    /// call always fails — there is no dynamic/sealed fallback for calls.
    pub fn call_property_local(self, multiname: &Multiname, arguments: &Vec<Value>) -> (step:
        Dispatch<Result<Value, Error>>)
        ensures
            match spec_resolve(*multiname) {
                Option::Some(q) => step matches Dispatch::Delegate(c) && c.method
                    == DelegateMethod::CallProperty && c.args@ == seq![Value::QName(q)]
                    + arguments@,
                Option::None => step == Dispatch::Complete(
                    Result::<Value, Error>::Err(Error::UndefinedProperty(multiname.local_name)),
                ),
            },
    {
        match resolve_qname(multiname) {
            Option::Some(qname) => {
                let ghost q = spec_resolve(*multiname)->0;
                let mut args: Vec<Value> = Vec::new();
                args.push(Value::QName(qname));
                let n = arguments.len();
                let mut i: usize = 0;
                while i < n
                    invariant
                        n == arguments@.len(),
                        i <= n,
                        args@ == seq![Value::QName(q)] + arguments@.subrange(0, i as int),
                    decreases n - i,
                {
                    args.push(arguments[i].clone());
                    proof {
                        assert(args@ =~= seq![Value::QName(q)] + arguments@.subrange(
                            0,
                            i as int + 1,
                        ));
                    }
                    i += 1;
                }
                proof {
                    assert(arguments@.subrange(0, n as int) =~= arguments@);
                }
                Dispatch::Delegate(DelegateCall { method: DelegateMethod::CallProperty, args })
            },
            Option::None => Dispatch::Complete(
                Result::Err(Error::UndefinedProperty(clone_local_name(&multiname.local_name))),
            ),
        }
    }

    /// Property DELETE.  On the first qualifying namespace, delegate to
    /// `deleteProperty(qname)`; `complete_boolean_delegate` coerces the
    /// delegate's result to a boolean.  With no qualifying namespace the
    /// operation never fails: an absent property "deletes successfully"
    /// on a dynamic class (`true`) and is denied on a sealed one
    /// (`false`).
    pub fn delete_property_local(self, arena: &ProxyArena, multiname: &Multiname) -> (step:
        Dispatch<Result<bool, Error>>)
        requires
            self.wf(*arena),
        ensures
            match spec_resolve(*multiname) {
                Option::Some(q) => step matches Dispatch::Delegate(c) && c.method
                    == DelegateMethod::DeleteProperty && c.args@ == seq![Value::QName(q)],
                Option::None => step == Dispatch::Complete(
                    Result::<bool, Error>::Ok(!self.spec_is_sealed(*arena)),
                ),
            },
    {
        match resolve_qname(multiname) {
            Option::Some(qname) => {
                let mut args: Vec<Value> = Vec::new();
                args.push(Value::QName(qname));
                proof {
                    assert(args@ =~= seq![Value::QName(spec_resolve(*multiname)->0)]);
                }
                Dispatch::Delegate(DelegateCall { method: DelegateMethod::DeleteProperty, args })
            },
            Option::None => {
                // Unknown properties on a dynamic class delete successfully.
                Dispatch::Complete(Result::Ok(!self.is_sealed(arena)))
            },
        }
    }

    /// Existence test (the `in` operator).  Unconditionally delegates to
    /// `hasProperty(local_name)` — no namespace scan and no
    /// sealed/dynamic fallback; `complete_boolean_delegate` coerces the
    /// delegate's result to a boolean.  The multiname carrying a local
    /// name is an unchecked precondition of the surrounding design, made
    /// explicit here.
    pub fn has_property_via_in(self, multiname: &Multiname) -> (c: DelegateCall)
        requires
            multiname.local_name is Some,
        ensures
            c.method == DelegateMethod::HasProperty,
            c.args@ == seq![Value::Str(multiname.local_name->0)],
    {
        let local = match &multiname.local_name {
            Option::Some(s) => s.clone(),
            Option::None => vstd::pervasive::unreached(),
        };
        let mut args: Vec<Value> = Vec::new();
        args.push(Value::Str(local));
        proof {
            assert(args@ =~= seq![Value::Str(multiname.local_name->0)]);
        }
        DelegateCall { method: DelegateMethod::HasProperty, args }
    }

    /// Enumeration step: delegate to `nextNameIndex(last_index)`;
    /// `complete_get_next_enumerant` coerces the delegate's result to an
    /// unsigned 32-bit index.
    pub fn get_next_enumerant(self, last_index: u32) -> (c: DelegateCall)
        ensures
            c.method == DelegateMethod::NextNameIndex,
            c.args@ == seq![Value::UInt(last_index)],
    {
        let mut args: Vec<Value> = Vec::new();
        args.push(Value::UInt(last_index));
        proof {
            assert(args@ =~= seq![Value::UInt(last_index)]);
        }
        DelegateCall { method: DelegateMethod::NextNameIndex, args }
    }

    /// Enumeration name: delegate to `nextName(index)`; the delegate's
    /// result is returned to the caller unmodified.
    pub fn get_enumerant_name(self, index: u32) -> (c: DelegateCall)
        ensures
            c.method == DelegateMethod::NextName,
            c.args@ == seq![Value::UInt(index)],
    {
        let mut args: Vec<Value> = Vec::new();
        args.push(Value::UInt(index));
        proof {
            assert(args@ =~= seq![Value::UInt(index)]);
        }
        DelegateCall { method: DelegateMethod::NextName, args }
    }

    /// Enumeration value: delegate to `nextValue(index)`; the delegate's
    /// result is returned to the caller unmodified.
    pub fn get_enumerant_value(self, index: u32) -> (c: DelegateCall)
        ensures
            c.method == DelegateMethod::NextValue,
            c.args@ == seq![Value::UInt(index)],
    {
        let mut args: Vec<Value> = Vec::new();
        args.push(Value::UInt(index));
        proof {
            assert(args@ =~= seq![Value::UInt(index)]);
        }
        DelegateCall { method: DelegateMethod::NextValue, args }
    }
}

/// SET's completion: the delegate's return value is discarded and success
/// is reported; a delegate failure propagates unchanged.
pub fn complete_set_property(outcome: Result<Value, Error>) -> (r: Result<(), Error>)
    ensures
        outcome matches Ok(_) ==> r == Result::<(), Error>::Ok(()),
        outcome matches Err(e) ==> r == Result::<(), Error>::Err(e),
{
    match outcome {
        Result::Ok(_) => Result::Ok(()),
        Result::Err(e) => Result::Err(e),
    }
}

/// DELETE's and the existence test's shared completion: the delegate's
/// return value is coerced to a boolean; a delegate failure propagates
/// unchanged.
pub fn complete_boolean_delegate(outcome: Result<Value, Error>) -> (r: Result<bool, Error>)
    ensures
        outcome matches Ok(v) ==> r == Result::<bool, Error>::Ok(spec_coerce_to_boolean(v)),
        outcome matches Err(e) ==> r == Result::<bool, Error>::Err(e),
{
    match outcome {
        Result::Ok(v) => Result::Ok(coerce_to_boolean(&v)),
        Result::Err(e) => Result::Err(e),
    }
}

/// Enumeration-step completion: the delegate's return value is coerced to
/// an unsigned 32-bit index and always reported as a present index —
/// there is no delegate-expressed "enumeration finished" signal; callers
/// treat `0` as the terminator by convention.  A delegate failure, or a
/// non-coercible return value, propagates as a failure.
pub fn complete_get_next_enumerant(outcome: Result<Value, Error>) -> (r: Result<
    Option<u32>,
    Error,
>)
    ensures
        outcome matches Ok(v) ==> match spec_coerce_to_u32(v) {
            Option::Some(n) => r == Result::<Option<u32>, Error>::Ok(Option::Some(n)),
            Option::None => r == Result::<Option<u32>, Error>::Err(Error::NonCoercible),
        },
        outcome matches Err(e) ==> r == Result::<Option<u32>, Error>::Err(e),
{
    match outcome {
        Result::Ok(v) => match coerce_to_u32(&v) {
            Result::Ok(n) => Result::Ok(Option::Some(n)),
            Result::Err(e) => Result::Err(e),
        },
        Result::Err(e) => Result::Err(e),
    }
}

} // verus!
