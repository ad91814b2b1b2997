//! The marks of the names that the classes take as inputs.
use vstd::prelude::*;

use crate::laws::marks::{mark, marks_ignore_case};
use crate::text::same_name;

verus! {

/// Each name of an input of door has its own mark.
pub proof fn door_names(name: Seq<char>)
    ensures
        same_name(name, "Open"@) ==> mark(name) == 18668805120000000000000000000,
        same_name(name, "Close"@) ==> mark(name) == 22518638338560000000000000000,
        same_name(name, "Toggle"@) ==> mark(name) == 26963099413772800000000000000,
        same_name(name, "Lock"@) ==> mark(name) == 18607261184000000000000000000,
        same_name(name, "Unlock"@) ==> mark(name) == 26983481086809600000000000000,
        same_name(name, "SetSpeed"@) ==> mark(name) == 35133601568019296000000000000,
{
    marks_ignore_case();
    assert(mark("Open"@) == 18668805120000000000000000000) by {
        reveal(mark);
        reveal_strlit("Open");
    }
    assert(mark("Close"@) == 22518638338560000000000000000) by {
        reveal(mark);
        reveal_strlit("Close");
    }
    assert(mark("Toggle"@) == 26963099413772800000000000000) by {
        reveal(mark);
        reveal_strlit("Toggle");
    }
    assert(mark("Lock"@) == 18607261184000000000000000000) by {
        reveal(mark);
        reveal_strlit("Lock");
    }
    assert(mark("Unlock"@) == 26983481086809600000000000000) by {
        reveal(mark);
        reveal_strlit("Unlock");
    }
    assert(mark("SetSpeed"@) == 35133601568019296000000000000) by {
        reveal(mark);
        reveal_strlit("SetSpeed");
    }
}

/// Each name of an input of counter has its own mark.
pub proof fn counter_names(name: Seq<char>)
    ensures
        same_name(name, "SetHitMax"@) ==> mark(name) == 39229595918291807232000000000,
        same_name(name, "SetHitMin"@) ==> mark(name) == 39229595918291809776000000000,
        same_name(name, "GetValue"@) ==> mark(name) == 34887843065709920320000000000,
        same_name(name, "Enable"@) ==> mark(name) == 26655794453772800000000000000,
        same_name(name, "Disable"@) ==> mark(name) == 30730801916268864000000000000,
        same_name(name, "Add"@) ==> mark(name) == 14284800000000000000000000000,
        same_name(name, "Subtract"@) ==> mark(name) == 35135240485087973120000000000,
        same_name(name, "Multiply"@) ==> mark(name) == 35012360462240550720000000000,
        same_name(name, "Divide"@) ==> mark(name) == 26634806017292800000000000000,
        same_name(name, "SetValue"@) ==> mark(name) == 35133603065709920320000000000,
        same_name(name, "SetValueNoFire"@) ==> mark(name) == 59709603065709920496916040000,
        same_name(name, "SetMaxValueNoFire"@) ==> mark(name) == 71997598457863583213692101000,
        same_name(name, "SetMinValueNoFire"@) ==> mark(name) == 71997598478215583213692101000,
{
    marks_ignore_case();
    assert(mark("SetHitMax"@) == 39229595918291807232000000000) by {
        reveal(mark);
        reveal_strlit("SetHitMax");
    }
    assert(mark("SetHitMin"@) == 39229595918291809776000000000) by {
        reveal(mark);
        reveal_strlit("SetHitMin");
    }
    assert(mark("GetValue"@) == 34887843065709920320000000000) by {
        reveal(mark);
        reveal_strlit("GetValue");
    }
    assert(mark("Enable"@) == 26655794453772800000000000000) by {
        reveal(mark);
        reveal_strlit("Enable");
    }
    assert(mark("Disable"@) == 30730801916268864000000000000) by {
        reveal(mark);
        reveal_strlit("Disable");
    }
    assert(mark("Add"@) == 14284800000000000000000000000) by {
        reveal(mark);
        reveal_strlit("Add");
    }
    assert(mark("Subtract"@) == 35135240485087973120000000000) by {
        reveal(mark);
        reveal_strlit("Subtract");
    }
    assert(mark("Multiply"@) == 35012360462240550720000000000) by {
        reveal(mark);
        reveal_strlit("Multiply");
    }
    assert(mark("Divide"@) == 26634806017292800000000000000) by {
        reveal(mark);
        reveal_strlit("Divide");
    }
    assert(mark("SetValue"@) == 35133603065709920320000000000) by {
        reveal(mark);
        reveal_strlit("SetValue");
    }
    assert(mark("SetValueNoFire"@) == 59709603065709920496916040000) by {
        reveal(mark);
        reveal_strlit("SetValueNoFire");
    }
    assert(mark("SetMaxValueNoFire"@) == 71997598457863583213692101000) by {
        reveal(mark);
        reveal_strlit("SetMaxValueNoFire");
    }
    assert(mark("SetMinValueNoFire"@) == 71997598478215583213692101000) by {
        reveal(mark);
        reveal_strlit("SetMinValueNoFire");
    }
}

/// Each name of an input of portal has its own mark.
pub proof fn portal_names(name: Seq<char>)
    ensures
        same_name(name, "SetActivatedState"@) ==> mark(name) == 71997592318931557916124659400,
        same_name(name, "Fizzle"@) ==> mark(name) == 26675774741772800000000000000,
        same_name(name, "NewLocation"@) ==> mark(name) == 47319197981433445288000000000,
        same_name(name, "Resize"@) ==> mark(name) == 26921116473612800000000000000,
        same_name(name, "SetLinkageGroupId"@) ==> mark(name) == 71997597966214879205692702400,
{
    marks_ignore_case();
    assert(mark("SetActivatedState"@) == 71997592318931557916124659400) by {
        reveal(mark);
        reveal_strlit("SetActivatedState");
    }
    assert(mark("Fizzle"@) == 26675774741772800000000000000) by {
        reveal(mark);
        reveal_strlit("Fizzle");
    }
    assert(mark("NewLocation"@) == 47319197981433445288000000000) by {
        reveal(mark);
        reveal_strlit("NewLocation");
    }
    assert(mark("Resize"@) == 26921116473612800000000000000) by {
        reveal(mark);
        reveal_strlit("Resize");
    }
    assert(mark("SetLinkageGroupId"@) == 71997597966214879205692702400) by {
        reveal(mark);
        reveal_strlit("SetLinkageGroupId");
    }
}

} // verus!
