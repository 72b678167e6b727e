use crate::text::owned;
use vstd::prelude::*;
use vstd::string::StringExecFns;

verus! {

/// The dots of the waiting animation at a tick: none to three, one more
/// every second tick.
pub open spec fn ellipsis(timer: u64) -> Seq<char> {
    Seq::new(((timer / 2) % 4) as nat, |i: int| '.')
}

pub fn animate_ellipsis(timer: u64) -> (r: String)
    ensures
        r@ == ellipsis(timer),
{
    proof {
        reveal_strlit("");
        reveal_strlit(".");
    }
    let count = (timer / 2) % 4;
    let mut r = owned("");
    assert(r@ =~= Seq::new(0, |k: int| '.'));
    let mut i: u64 = 0;
    while i < count
        invariant
            i <= count,
            count == (timer / 2) % 4,
            r@ == Seq::new(i as nat, |k: int| '.'),
        decreases count - i,
    {
        proof {
            reveal_strlit(".");
        }
        r = r.concat(".");
        i = i + 1;
        assert(r@ =~= Seq::new(i as nat, |k: int| '.'));
    }
    r
}

/// The message of the start screen.
pub fn starting(timer: u64) -> (r: String)
    ensures
        r@ == "Starting"@ + ellipsis(timer),
{
    owned("Starting").concat(animate_ellipsis(timer).as_str())
}

/// The message of the account screen.
pub fn account_missing(timer: u64) -> (r: String)
    ensures
        r@ == "Account not configured, please enter your details when prompted"@ + ellipsis(timer),
{
    owned("Account not configured, please enter your details when prompted").concat(
        animate_ellipsis(timer).as_str(),
    )
}

/// The pieces of the line of key bindings: each legend line, after a bar
/// that separates it from the one before.
pub fn generate_keys_widget(keybinds: &Vec<String>) -> (r: Vec<String>)
    ensures
        r@.len() == keybinds@.len(),
        forall|i: int|
            0 <= i < r@.len() ==> (#[trigger] r@[i])@ == (if i == 0 {
                ""@
            } else {
                " | "@
            }) + keybinds@[i]@,
{
    let mut r: Vec<String> = Vec::new();
    let mut i: usize = 0;
    while i < keybinds.len()
        invariant
            i <= keybinds.len(),
            r@.len() == i,
            forall|k: int|
                0 <= k < i ==> (#[trigger] r@[k])@ == (if k == 0 {
                    ""@
                } else {
                    " | "@
                }) + keybinds@[k]@,
        decreases keybinds.len() - i,
    {
        let spacer = if i == 0 {
            ""
        } else {
            " | "
        };
        r.push(owned(spacer).concat(keybinds[i].as_str()));
        i = i + 1;
    }
    r
}

} // verus!
