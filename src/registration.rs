//! The functions a host registers, and the order of registration with
//! the first failure ending it.
use vstd::prelude::*;

verus! {

/// The status code a host returns for a successful registration.
pub const STATUS_OK: i32 = 0;

/// The number of registrations made at initialisation.
pub const REGISTRATION_COUNT: usize = 7;

/// One of the SQL scalar functions of this library.
#[derive(Clone, Copy, Debug, PartialEq, Eq, Structural)]
pub enum SqlFunction {
    Uuid7,
    Uuid7Blob,
    Uuid,
    UuidStr,
    UuidBlob,
}

/// The SQL name under which a function is registered.
pub open spec fn sql_name(f: SqlFunction) -> Seq<char> {
    match f {
        SqlFunction::Uuid7 => seq!['u', 'u', 'i', 'd', '7'],
        SqlFunction::Uuid7Blob => seq!['u', 'u', 'i', 'd', '7', '_', 'b', 'l', 'o', 'b'],
        SqlFunction::Uuid => seq!['u', 'u', 'i', 'd'],
        SqlFunction::UuidStr => seq!['u', 'u', 'i', 'd', '_', 's', 't', 'r'],
        SqlFunction::UuidBlob => seq!['u', 'u', 'i', 'd', '_', 'b', 'l', 'o', 'b'],
    }
}

impl SqlFunction {
    /// The SQL name of the function.
    pub fn name(&self) -> (r: &'static str)
        ensures
            r@ == sql_name(*self),
    {
        match self {
            SqlFunction::Uuid7 => {
                proof {
                    reveal_strlit("uuid7");
                }
                "uuid7"
            },
            SqlFunction::Uuid7Blob => {
                proof {
                    reveal_strlit("uuid7_blob");
                }
                "uuid7_blob"
            },
            SqlFunction::Uuid => {
                proof {
                    reveal_strlit("uuid");
                }
                "uuid"
            },
            SqlFunction::UuidStr => {
                proof {
                    reveal_strlit("uuid_str");
                }
                "uuid_str"
            },
            SqlFunction::UuidBlob => {
                proof {
                    reveal_strlit("uuid_blob");
                }
                "uuid_blob"
            },
        }
    }
}

/// One registration: a function, its number of arguments, and whether the
/// host may treat it as deterministic (its result a function of its
/// arguments alone).
#[derive(Clone, Copy, Debug, PartialEq, Eq, Structural)]
pub struct Registration {
    pub function: SqlFunction,
    pub arity: u8,
    pub deterministic: bool,
}

/// The registrations, in the order they are made. The generating forms
/// are not deterministic; the decoding forms are.
pub open spec fn registration_plan() -> Seq<Registration> {
    seq![
        Registration { function: SqlFunction::Uuid7, arity: 0, deterministic: false },
        Registration { function: SqlFunction::Uuid7Blob, arity: 0, deterministic: false },
        Registration { function: SqlFunction::Uuid7Blob, arity: 1, deterministic: true },
        Registration { function: SqlFunction::Uuid, arity: 0, deterministic: false },
        Registration { function: SqlFunction::UuidStr, arity: 1, deterministic: true },
        Registration { function: SqlFunction::UuidBlob, arity: 0, deterministic: false },
        Registration { function: SqlFunction::UuidBlob, arity: 1, deterministic: true },
    ]
}

/// The registration made in place `index`.
pub fn registration(index: usize) -> (r: Registration)
    requires
        index < REGISTRATION_COUNT,
    ensures
        r == registration_plan()[index as int],
{
    match index {
        0 => Registration { function: SqlFunction::Uuid7, arity: 0, deterministic: false },
        1 => Registration { function: SqlFunction::Uuid7Blob, arity: 0, deterministic: false },
        2 => Registration { function: SqlFunction::Uuid7Blob, arity: 1, deterministic: true },
        3 => Registration { function: SqlFunction::Uuid, arity: 0, deterministic: false },
        4 => Registration { function: SqlFunction::UuidStr, arity: 1, deterministic: true },
        5 => Registration { function: SqlFunction::UuidBlob, arity: 0, deterministic: false },
        _ => Registration { function: SqlFunction::UuidBlob, arity: 1, deterministic: true },
    }
}

/// What initialisation does next.
#[derive(Clone, Copy, Debug, PartialEq, Eq, Structural)]
pub enum InitStep {
    /// Make this registration and report its status.
    Register(Registration),
    /// Stop, returning this status.
    Finish(i32),
}

/// The next step of initialisation, once `registered` registrations have
/// been made and the last one reported `last_status` (`STATUS_OK` before
/// the first). A failure ends it with that status; after the last
/// registration it ends with `STATUS_OK`.
pub fn next_init_step(registered: usize, last_status: i32) -> (r: InitStep)
    requires
        registered <= REGISTRATION_COUNT,
    ensures
        last_status != STATUS_OK ==> r == InitStep::Finish(last_status),
        last_status == STATUS_OK && registered < REGISTRATION_COUNT ==> r == InitStep::Register(
            registration_plan()[registered as int],
        ),
        last_status == STATUS_OK && registered == REGISTRATION_COUNT ==> r == InitStep::Finish(
            STATUS_OK,
        ),
{
    if last_status != STATUS_OK {
        InitStep::Finish(last_status)
    } else if registered < REGISTRATION_COUNT {
        InitStep::Register(registration(registered))
    } else {
        InitStep::Finish(STATUS_OK)
    }
}

/// The outcome of installing the extension with the host: `Ok` on
/// `STATUS_OK`, else the status as the error.
pub fn registration_result(status: i32) -> (r: Result<(), i32>)
    ensures
        status == STATUS_OK ==> r == Ok::<(), i32>(()),
        status != STATUS_OK ==> r == Err::<(), i32>(status),
{
    if status == STATUS_OK {
        Ok(())
    } else {
        Err(status)
    }
}

} // verus!
