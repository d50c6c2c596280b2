use vstd::prelude::*;

verus! {

/// The verifier's failure action that prints the diagnostic to the error
/// stream and returns a status.
pub const PRINT_MESSAGE_ACTION: u32 = 1;

/// The verifier's failure action that only returns a status.
pub const RETURN_STATUS_ACTION: u32 = 2;

/// An owned reference to a backend module, held by its address.
#[derive(Debug)]
pub struct Module {
    module: usize,
}

/// A function declared in a module: a view into memory that the module owns.
#[derive(Debug, Clone, Copy, PartialEq, Eq, Structural)]
pub struct FunctionValue {
    value: usize,
}

/// A named type registered in a module: a view into memory that the backend
/// owns.
#[derive(Debug, Clone, Copy, PartialEq, Eq, Structural)]
pub struct BasicTypeEnum {
    type_: usize,
}

/// An execution engine that has taken over a module.
#[derive(Debug, PartialEq, Eq, Structural)]
pub struct ExecutionEngine {
    engine: usize,
    jit_mode: bool,
    module: usize,
}

/// What to do once the backend's verifier has answered.
#[derive(Debug, Clone, Copy, PartialEq, Eq, Structural)]
pub struct Verification {
    /// Whether the module is well-formed.
    pub well_formed: bool,
    /// Whether the diagnostic is to be written to the error stream.
    pub report: bool,
    /// Whether a diagnostic was handed back and must be released.
    pub release: bool,
}

impl View for Module {
    type V = usize;

    closed spec fn view(&self) -> usize {
        self.module
    }
}

impl View for FunctionValue {
    type V = usize;

    closed spec fn view(&self) -> usize {
        self.value
    }
}

impl View for BasicTypeEnum {
    type V = usize;

    closed spec fn view(&self) -> usize {
        self.type_
    }
}

impl Module {
    /// A module's handle is never null.
    #[verifier::type_invariant]
    spec fn inv(&self) -> bool {
        self.module != 0
    }

    /// Takes ownership of the backend module at `module`, which must not be
    /// null.
    pub fn new(module: usize) -> (r: Module)
        requires
            module != 0,
        ensures
            r@ == module,
    {
        Module { module }
    }

    /// The address of the backend module; never null.
    pub fn handle(&self) -> (r: usize)
        ensures
            r == self@,
            r != 0,
    {
        proof {
            use_type_invariant(self);
        }
        self.module
    }

    /// Turns the backend's answer to a function lookup into a function, or
    /// into `None` where the backend answered with a null handle.
    pub fn function_from_handle(value: usize) -> (r: Option<FunctionValue>)
        ensures
            r is None <==> value == 0,
            r matches Some(f) ==> f@ == value,
    {
        if value == 0 {
            None
        } else {
            Some(FunctionValue { value })
        }
    }

    /// Turns the backend's answer to a type lookup into a type, or into
    /// `None` where the backend answered with a null handle.
    pub fn type_from_handle(type_: usize) -> (r: Option<BasicTypeEnum>)
        ensures
            r is None <==> type_ == 0,
            r matches Some(t) ==> t@ == type_,
    {
        if type_ == 0 {
            None
        } else {
            Some(BasicTypeEnum { type_ })
        }
    }

    /// The verifier's failure action: print the diagnostic when asked to,
    /// else only return the status. The action that aborts is never chosen.
    pub fn verifier_action(print: bool) -> (r: u32)
        ensures
            r == (if print { PRINT_MESSAGE_ACTION } else { RETURN_STATUS_ACTION }),
    {
        if print {
            PRINT_MESSAGE_ACTION
        } else {
            RETURN_STATUS_ACTION
        }
    }

    /// Reads the verifier's status: the module is well-formed iff the status
    /// is zero. A diagnostic that came back is released in every case, and
    /// reported only on failure when `print` asks for it.
    pub fn verify_outcome(status: i32, print: bool, has_message: bool) -> (r: Verification)
        ensures
            r.well_formed == (status == 0),
            r.report == (status != 0 && print && has_message),
            r.release == has_message,
    {
        let well_formed = status == 0;
        Verification { well_formed, report: !well_formed && print && has_message, release: has_message }
    }

    /// Reads the status of an attempt to build an execution engine from this
    /// module. On a zero status the engine at `engine` owns the module from
    /// then on, and the module value is gone; else the module comes back to
    /// its owner with the backend's diagnostic.
    pub fn into_engine(self, status: i32, engine: usize, jit_mode: bool, message: String) -> (r: Result<
        ExecutionEngine,
        (Module, String),
    >)
        ensures
            r is Ok <==> status == 0,
            r matches Ok(e) ==> e.engine() == engine && e.jit_mode() == jit_mode && e.module() == self@,
            r matches Err((m, d)) ==> m@ == self@ && d@ == message@,
    {
        if status == 0 {
            Ok(ExecutionEngine { engine, jit_mode, module: self.module })
        } else {
            Err((self, message))
        }
    }

    /// Reads the status of a bitcode write: it succeeded iff the status is
    /// zero.
    pub fn write_succeeded(status: i32) -> (r: bool)
        ensures
            r == (status == 0),
    {
        status == 0
    }
}

impl ExecutionEngine {
    pub closed spec fn engine(&self) -> usize {
        self.engine
    }

    pub closed spec fn jit_mode(&self) -> bool {
        self.jit_mode
    }

    pub closed spec fn module(&self) -> usize {
        self.module
    }

    /// The address of the module that the engine owns.
    pub fn module_handle(&self) -> (r: usize)
        ensures
            r == self.module(),
    {
        self.module
    }

    /// The address of the backend's execution engine.
    pub fn handle(&self) -> (r: usize)
        ensures
            r == self.engine(),
    {
        self.engine
    }

    /// Whether the engine was built with the JIT backend linked in.
    pub fn is_jit(&self) -> (r: bool)
        ensures
            r == self.jit_mode(),
    {
        self.jit_mode
    }
}

impl FunctionValue {
    /// The address of the backend function.
    pub fn handle(&self) -> (r: usize)
        ensures
            r == self@,
    {
        self.value
    }
}

impl BasicTypeEnum {
    /// The address of the backend type.
    pub fn handle(&self) -> (r: usize)
        ensures
            r == self@,
    {
        self.type_
    }
}

} // verus!
