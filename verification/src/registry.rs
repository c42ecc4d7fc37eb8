//! The module registrar: a named descriptor of exposed function bindings.
//!
//! At load time the registrar constructs a fresh [`ModuleDescriptor`],
//! adapts each exposed native operation, and attaches it under its
//! external name.  Names are unique and insertion order is kept; a
//! duplicate name is a `RegistrationConflict` and leaves the descriptor
//! untouched, so a failed load produces no partial module.

use vstd::prelude::*;

use crate::adapter::adapted_add_spec;
use crate::adapter::call_add_two_numbers;
use crate::value::CallError;
use crate::value::HostValue;
use crate::value::LoadError;

verus! {

/// Which native operation a binding adapts.  The module exposes one, but
/// the registration contract holds for any number.
#[derive(Clone, Copy, PartialEq, Eq, Structural, Debug)]
pub enum NativeOp {
    /// Pure 32-bit integer addition.
    AddTwoNumbers,
}

/// What invoking a binding's operation returns for a given argument tuple.
pub open spec fn invoke_spec(op: NativeOp, args: Seq<HostValue>) -> Result<HostValue, CallError> {
    match op {
        NativeOp::AddTwoNumbers => adapted_add_spec(args),
    }
}

/// How many positional parameters each operation's declared signature has.
pub open spec fn declared_arity(op: NativeOp) -> int {
    match op {
        NativeOp::AddTwoNumbers => 2,
    }
}

/// A call whose argument count does not match the declared signature
/// fails with `ArityMismatch` before any conversion or computation.
pub proof fn lemma_signature_arity_enforced(op: NativeOp, args: Seq<HostValue>)
    requires
        args.len() != declared_arity(op),
    ensures
        invoke_spec(op, args) == Err::<HostValue, CallError>(CallError::ArityMismatch),
{
}

/// One exposed function: an external callable name paired with the native
/// operation adapted under it.  Created once at registration, immutable,
/// invoked on each host call.
#[derive(Debug)]
pub struct FunctionBinding {
    /// The name under which the host calls the operation.
    pub name: String,
    /// The adapted native operation.
    pub op: NativeOp,
}

impl FunctionBinding {
    /// Invoke the bound operation on a tuple of host values.
    pub fn invoke(&self, args: &Vec<HostValue>) -> (r: Result<HostValue, CallError>)
        ensures
            r == invoke_spec(self.op, args@),
    {
        match self.op {
            NativeOp::AddTwoNumbers => call_add_two_numbers(args),
        }
    }
}

/// The loadable unit exposed to the host: an external name and the
/// bindings attached under it, in registration order.
#[derive(Debug)]
pub struct ModuleDescriptor {
    /// The module's external name, fixed at build time.
    pub name: String,
    /// The exposed bindings, in the order they were attached.
    pub bindings: Vec<FunctionBinding>,
}

impl ModuleDescriptor {
    /// Every attached name is used once.
    pub open spec fn wf(self) -> bool {
        forall|i: int, j: int|
            0 <= i < j < self.bindings@.len() ==> self.bindings@[i].name@ != self.bindings@[j].name@
    }

    /// Whether some binding is already attached under the given name.
    pub open spec fn has_name(self, n: Seq<char>) -> bool {
        exists|i: int| 0 <= i < self.bindings@.len() && self.bindings@[i].name@ == n
    }

    /// A fresh descriptor with no bindings yet.
    pub fn new(name: String) -> (m: ModuleDescriptor)
        ensures
            m.name@ == name@,
            m.bindings@.len() == 0,
            m.wf(),
    {
        ModuleDescriptor { name, bindings: Vec::new() }
    }

    /// Attach one adapted operation under an external name.  A name not
    /// yet taken is appended; a duplicate is a `RegistrationConflict` and
    /// the descriptor is left exactly as it was.
    pub fn attach(&mut self, name: String, op: NativeOp) -> (r: Result<(), LoadError>)
        requires
            old(self).wf(),
        ensures
            final(self).wf(),
            final(self).name@ == old(self).name@,
            old(self).has_name(name@) ==> {
                &&& r == Err::<(), LoadError>(LoadError::RegistrationConflict)
                &&& *final(self) == *old(self)
            },
            !old(self).has_name(name@) ==> {
                &&& r == Ok::<(), LoadError>(())
                &&& final(self).bindings@ == old(self).bindings@.push(
                    FunctionBinding { name, op },
                )
            },
    {
        let mut i: usize = 0;
        while i < self.bindings.len()
            invariant
                *self == *old(self),
                old(self).wf(),
                i <= self.bindings@.len(),
                forall|k: int| 0 <= k < i ==> self.bindings@[k].name@ != name@,
            decreases self.bindings@.len() - i,
        {
            if self.bindings[i].name == name {
                return Err(LoadError::RegistrationConflict);
            }
            i += 1;
        }
        self.bindings.push(FunctionBinding { name, op });
        Ok(())
    }

    /// Look an attached binding up by its external name.
    pub fn find(&self, name: &String) -> (r: Option<usize>)
        ensures
            match r {
                Some(i) => i < self.bindings@.len() && self.bindings@[i as int].name@ == name@,
                None => !self.has_name(name@),
            },
    {
        let mut i: usize = 0;
        while i < self.bindings.len()
            invariant
                i <= self.bindings@.len(),
                forall|k: int| 0 <= k < i ==> self.bindings@[k].name@ != name@,
            decreases self.bindings@.len() - i,
        {
            if self.bindings[i].name == *name {
                return Some(i);
            }
            i += 1;
        }
        None
    }
}

/// The shape that registering this module always produces: the given
/// external module name, and exactly one binding, the adapted addition
/// under the name `add_two_numbers`.
pub open spec fn registered_shape(m: ModuleDescriptor, module_name: Seq<char>) -> bool {
    &&& m.name@ == module_name
    &&& m.bindings@.len() == 1
    &&& m.bindings@[0].name@ == "add_two_numbers"@
    &&& m.bindings@[0].op == NativeOp::AddTwoNumbers
}

/// Build the module: construct a fresh descriptor under the given external
/// name and attach every exposed operation.  Registration is all or
/// nothing; with this module's single exposed function no name can
/// collide, so it always succeeds.
pub fn register(module_name: String) -> (r: Result<ModuleDescriptor, LoadError>)
    ensures
        r is Ok,
        r->Ok_0.wf(),
        registered_shape(r->Ok_0, module_name@),
{
    let mut m = ModuleDescriptor::new(module_name);
    match m.attach("add_two_numbers".to_owned(), NativeOp::AddTwoNumbers) {
        Ok(()) => Ok(m),
        Err(e) => Err(e),
    }
}

/// Register the module under its fixed build-time name.  This is what
/// runs once when the host loader first imports the module.
pub fn sendme_module() -> (m: ModuleDescriptor)
    ensures
        m.wf(),
        registered_shape(m, "sendme_module"@),
{
    match register("sendme_module".to_owned()) {
        Ok(m) => m,
        Err(_) => vstd::pervasive::unreached(),
    }
}

/// Importing the module twice within one process yields the same external
/// name bound to behavior that agrees on every argument tuple.
pub proof fn lemma_repeated_import_agrees(
    m1: ModuleDescriptor,
    m2: ModuleDescriptor,
    args: Seq<HostValue>,
)
    requires
        registered_shape(m1, "sendme_module"@),
        registered_shape(m2, "sendme_module"@),
    ensures
        m1.name@ == m2.name@,
        m1.bindings@.len() == m2.bindings@.len(),
        m1.bindings@[0].name@ == m2.bindings@[0].name@,
        invoke_spec(m1.bindings@[0].op, args) == invoke_spec(m2.bindings@[0].op, args),
{
}

} // verus!
