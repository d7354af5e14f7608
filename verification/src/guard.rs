//! Single-instance guard: what is said where two servers would share one database root.
//!
//! Two servers over one root would open the same databases and collide. Better to refuse at
//! startup with an explanation than to fail later on a request.

use crate::number::{decimal, decimal_text};
use vstd::prelude::*;

verus! {

/// The name of the lock file in the database root.
pub const LOCK_FILE: &'static str = "fff-server.lock";

/// What is said where the database root cannot be made.
pub fn cannot_create(db_root: &str, why: &str) -> (r: String)
    ensures
        r@ == "cannot create "@ + db_root@ + ": "@ + why@,
{
    let mut text = "cannot create ".to_owned();
    text.append(db_root);
    text.append(": ");
    text.append(why);
    text
}

/// What is said where another server holds the lock.
pub fn already_running(db_root: &str, why: &str) -> (r: String)
    ensures
        r@ == "another fff-server instance is already using "@ + db_root@ + " ("@ + why@
            + ").\nStop it, or point this one at a different workspaces.db_root."@,
{
    let mut text = "another fff-server instance is already using ".to_owned();
    text.append(db_root);
    text.append(" (");
    text.append(why);
    text.append(").\nStop it, or point this one at a different workspaces.db_root.");
    text
}

/// What is written into the lock, for whoever finds it and wonders who holds it.
pub fn breadcrumb(pid: u32) -> (r: String)
    ensures
        r@ == "pid "@ + decimal_text(pid as nat) + "\n"@,
{
    let mut text = "pid ".to_owned();
    text.append(decimal(pid as u64).as_str());
    text.append("\n");
    text
}

/// Both refusals to start name the directory and the reason, and the lock says which process holds
/// it.
pub proof fn refusals_to_start_name_the_directory(
    db_root: &str,
    why: &str,
    pid: u32,
    a: String,
    b: String,
    c: String,
)
    requires
        call_ensures(cannot_create, (db_root, why), a),
        call_ensures(already_running, (db_root, why), b),
        call_ensures(breadcrumb, (pid,), c),
    ensures
        a@ == "cannot create "@ + db_root@ + ": "@ + why@,
        b@ == "another fff-server instance is already using "@ + db_root@ + " ("@ + why@
            + ").\nStop it, or point this one at a different workspaces.db_root."@,
        c@ == "pid "@ + decimal_text(pid as nat) + "\n"@,
        LOCK_FILE@ == "fff-server.lock"@,
{
}

} // verus!
