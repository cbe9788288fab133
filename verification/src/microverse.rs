//! The rules by which a native extension, a microverse, is admitted: the
//! handshake on the compatibility version, the registration of its entry
//! points, and what may cross the boundary to native code.

use vstd::prelude::*;
use crate::environment::{Environment, FrameView};
use crate::error::{ErrorKind, ErrorKindView, SwResult};
use crate::statement::{Statement, StatementView};
use crate::value::{result_view, NativeHandle, Value, ValueView};

verus! {

/// The outcome of the handshake. An extension that does not report a
/// version has no marker and is refused by name; one that reports a version
/// other than the host's, smaller or larger, is refused with the version it
/// reports; only the host's own version is accepted.
pub open spec fn handshake_spec(library: Seq<char>, host: u32, reported: Option<u32>) -> Result<
    (),
    ErrorKindView,
> {
    match reported {
        None => Err(ErrorKindView::MissingAbiCompat { library }),
        Some(version) => if version == host {
            Ok(())
        } else {
            Err(ErrorKindView::IncompatibleAbi(version))
        },
    }
}

/// The content of an outcome without a value.
pub open spec fn outcome_view(r: SwResult<()>) -> Result<(), ErrorKindView> {
    match r {
        Ok(_) => Ok(()),
        Err(kind) => Err(kind@),
    }
}

/// Decides whether an extension is admitted, from the version that its
/// marker reports.
pub fn handshake(library: &String, host: u32, reported: Option<u32>) -> (r: SwResult<()>)
    ensures
        outcome_view(r) == handshake_spec(library@, host, reported),
{
    match reported {
        None => Err(ErrorKind::MissingAbiCompat { library: library.clone() }),
        Some(version) => if version == host {
            Ok(())
        } else {
            Err(ErrorKind::IncompatibleAbi(version))
        },
    }
}

/// What a native call gives the interpreter: the value that came back, or a
/// failure if nothing at all came back. The absence value of the language is
/// a value like any other.
pub open spec fn native_result_spec(returned: Option<ValueView>) -> Result<
    ValueView,
    ErrorKindView,
> {
    match returned {
        Some(value) => Ok(value),
        None => Err(ErrorKindView::DylibReturnedNil),
    }
}

/// Checks what came back from a native call.
pub fn native_result(returned: Option<Value>) -> (r: SwResult<Value>)
    ensures
        result_view(r) == native_result_spec(crate::environment::found_view(returned)),
{
    match returned {
        Some(value) => Ok(value),
        None => Err(ErrorKind::DylibReturnedNil),
    }
}

/// Whether a statement may stand in the block of an extension: only a direct
/// function call may, and any other statement is refused as it is.
pub open spec fn call_only_spec(statement: StatementView) -> Result<(), ErrorKindView> {
    if statement.kind is FunctionCall {
        Ok(())
    } else {
        Err(ErrorKindView::NonFunctionCallInDylib(statement))
    }
}

/// Checks that a statement may stand in the block of an extension.
pub fn call_only(statement: &Statement) -> (r: SwResult<()>)
    ensures
        outcome_view(r) == call_only_spec(statement@),
{
    if statement.kind.is_function_call() {
        Ok(())
    } else {
        Err(ErrorKind::NonFunctionCallInDylib(statement.duplicate()))
    }
}

/// The bindings of a frame after the first `n` entry points of a library
/// were registered in it: each exported name is bound to the handle of the
/// entry point.
pub open spec fn registered_spec(
    vars: Map<Seq<char>, ValueView>,
    library: Seq<char>,
    exports: Seq<Seq<char>>,
    n: nat,
) -> Map<Seq<char>, ValueView>
    decreases n,
{
    if n == 0 || n > exports.len() {
        vars
    } else {
        registered_spec(vars, library, exports, (n - 1) as nat).insert(
            exports[n - 1],
            ValueView::Native { library, symbol: exports[n - 1] },
        )
    }
}

/// The frames after the entry points of a library were registered: the
/// global frame binds each exported name, the other frames are unchanged.
pub open spec fn register_spec(
    frames: Seq<FrameView>,
    library: Seq<char>,
    exports: Seq<Seq<char>>,
) -> Seq<FrameView> {
    if frames.len() > 0 {
        frames.update(
            0,
            FrameView {
                vars: registered_spec(frames[0].vars, library, exports, exports.len()),
                ..frames[0]
            },
        )
    } else {
        frames
    }
}

/// Registers the entry points of an admitted library in the global frame,
/// each under the name that the library exports it by.
pub fn register(env: &mut Environment, library: &String, exports: &Vec<String>)
    ensures
        final(env)@ == register_spec(
            old(env)@,
            library@,
            crate::statement::names_view(exports@),
        ),
{
    if env.len() == 0 {
        return ;
    }
    let ghost names = crate::statement::names_view(exports@);
    let mut i: usize = 0;
    assert(env@ =~= old(env)@.update(
        0,
        FrameView { vars: registered_spec(old(env)@[0].vars, library@, names, 0), ..old(env)@[0] },
    ));
    while i < exports.len()
        invariant
            i <= exports.len(),
            names == crate::statement::names_view(exports@),
            old(env)@.len() > 0,
            env@ == old(env)@.update(
                0,
                FrameView {
                    vars: registered_spec(old(env)@[0].vars, library@, names, i as nat),
                    ..old(env)@[0]
                },
            ),
        decreases exports.len() - i,
    {
        let handle = NativeHandle { library: library.clone(), symbol: exports[i].clone() };
        let ghost before = env@;
        env.assign(0, exports[i].clone(), Value::Native(handle));
        i = i + 1;
        assert(env@ =~= old(env)@.update(
            0,
            FrameView {
                vars: registered_spec(old(env)@[0].vars, library@, names, i as nat),
                ..old(env)@[0]
            },
        ));
    }
}

/// After registration every entry point is bound in the global frame to its
/// handle, and a name that the library does not export is bound as before.
pub proof fn law_registered(
    vars: Map<Seq<char>, ValueView>,
    library: Seq<char>,
    exports: Seq<Seq<char>>,
    n: nat,
    name: Seq<char>,
)
    requires
        n <= exports.len(),
    ensures
        exports.take(n as int).contains(name) ==> registered_spec(
            vars,
            library,
            exports,
            n,
        ).dom().contains(name) && registered_spec(vars, library, exports, n)[name]
            == (ValueView::Native { library, symbol: name }),
        !exports.take(n as int).contains(name) ==> (registered_spec(
            vars,
            library,
            exports,
            n,
        ).dom().contains(name) <==> vars.dom().contains(name)) && (vars.dom().contains(name)
            ==> registered_spec(vars, library, exports, n)[name] == vars[name]),
    decreases n,
{
    if n > 0 {
        law_registered(vars, library, exports, (n - 1) as nat, name);
        let shorter = exports.take(n - 1);
        let longer = exports.take(n as int);
        assert(longer =~= shorter.push(exports[n - 1]));
        if shorter.contains(name) {
            let k = choose|k: int| 0 <= k < shorter.len() && shorter[k] == name;
            assert(longer[k] == name);
        }
        if exports[n - 1] == name {
            assert(longer[n - 1] == name);
        }
        if longer.contains(name) && exports[n - 1] != name {
            let k = choose|k: int| 0 <= k < longer.len() && longer[k] == name;
            assert(shorter[k] == name);
        }
    }
}

} // verus!
