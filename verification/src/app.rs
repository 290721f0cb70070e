//! Classes and methods of the game itself.

use vstd::prelude::*;
use crate::Il2CppResult;
use crate::il2cpp::api::Il2CppApi;
use crate::il2cpp::class::Il2CppClassData;
use crate::scan::ScanInfo;
use crate::system::call_method;
use crate::system::called;

verus! {

/// The class of the game's messages.
#[derive(Clone, Copy, Debug, Default)]
pub struct AppMess {}

impl Il2CppClassData for AppMess {
    const NAMESPACE: &'static str = "App";

    const CLASS: &'static str = "Mess";
}

/// Writes to the log of the game's script system; `args` is the address of
/// the arguments of the script call.
pub fn scriptsystem_log<A: Il2CppApi>(api: &A, args: usize) -> (r: Il2CppResult<usize>)
    ensures
        called(
            api,
            (ScanInfo {
                namespace: "App",
                class: "ScriptSystem",
                method: "Log",
                forced_arg_count: 0,
            }),
            1,
            seq![args],
            r,
        ),
{
    let reference = ScanInfo {
        namespace: "App",
        class: "ScriptSystem",
        method: "Log",
        forced_arg_count: 0,
    };
    let mut words: Vec<usize> = Vec::new();
    words.push(args);
    assert(words@ =~= seq![args]);
    call_method(api, reference, 1, words.as_slice())
}

/// Makes the main menu sequence at `this` go on to the sequence after it.
pub fn mainmenusequence_jumptonextsequence<A: Il2CppApi>(api: &A, this: usize) -> (r: Il2CppResult<
    usize,
>)
    ensures
        called(
            api,
            (ScanInfo {
                namespace: "App",
                class: "MainMenuSequence",
                method: "JumpToNextSequence",
                forced_arg_count: 0,
            }),
            0,
            seq![this],
            r,
        ),
{
    let reference = ScanInfo {
        namespace: "App",
        class: "MainMenuSequence",
        method: "JumpToNextSequence",
        forced_arg_count: 0,
    };
    let mut words: Vec<usize> = Vec::new();
    words.push(this);
    assert(words@ =~= seq![this]);
    call_method(api, reference, 0, words.as_slice())
}

} // verus!
