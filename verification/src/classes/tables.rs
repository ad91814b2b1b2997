//! The class table: what each class declares, and the classes that there are.
use vstd::prelude::*;

use crate::class::{inputs, names, InputDef, InputDefView};
use crate::io::FieldType;

verus! {

/// What an entity's class is. Several classnames can stand for one.
#[derive(Debug, Clone, Copy, PartialEq, Eq, Structural)]
pub enum ClassKind {
    Relay,
    DynamicProp,
    Light,
    EnvLight,
    Brush,
    AreaPortal,
    InstanceIoProxy,
    RotatingDoor,
    Door,
    MoveLinear,
    Button,
    Rotating,
    Auto,
    Branch,
    BranchList,
    Timer,
    MathCounter,
    TonemapController,
    Case,
    TriggerOnce,
    TriggerMultiple,
    TriggerHurt,
    TriggerPush,
    TriggerTeleport,
    FilterClass,
    FilterName,
    FilterMulti,
    FilterPlayerHeld,
    FilterDamageType,
    FilterModel,
    PointTeleport,
    Player,
    LogicPlayerProxy,
    RevertSaved,
    PointEntity,
    FloorButton,
    TestChamberDoor,
    WeightedCube,
    PropPortal,
    ButtonTrigger,
    World,
}

pub open spec fn relay_keys_spec() -> Seq<Seq<char>> {
    seq![
        "StartDisabled"@,
    ]
}

pub fn relay_keys() -> (r: Vec<&'static str>)
    ensures
        names(r@) == relay_keys_spec(),
{
    let r = vec![
        "StartDisabled",
    ];
    assert(names(r@) =~= relay_keys_spec());
    r
}

pub open spec fn relay_inputs_spec() -> Seq<InputDefView> {
    seq![
        declared_input("Enable"@, FieldType::Void), declared_input("EnableRefire"@, FieldType::Void),
        declared_input("Disable"@, FieldType::Void), declared_input("Toggle"@, FieldType::Void),
        declared_input("Trigger"@, FieldType::Void), declared_input("CancelPending"@, FieldType::Void),
    ]
}

pub fn relay_inputs() -> (r: Vec<InputDef>)
    ensures
        inputs(r@) == relay_inputs_spec(),
{
    let r = vec![
        InputDef::new("Enable", FieldType::Void), InputDef::new("EnableRefire", FieldType::Void),
        InputDef::new("Disable", FieldType::Void), InputDef::new("Toggle", FieldType::Void),
        InputDef::new("Trigger", FieldType::Void), InputDef::new("CancelPending", FieldType::Void),
    ];
    assert(inputs(r@) =~= relay_inputs_spec());
    r
}

pub open spec fn relay_outputs_spec() -> Seq<Seq<char>> {
    seq![
        "OnTrigger"@, "OnSpawn"@,
    ]
}

pub fn relay_outputs() -> (r: Vec<&'static str>)
    ensures
        names(r@) == relay_outputs_spec(),
{
    let r = vec![
        "OnTrigger", "OnSpawn",
    ];
    assert(names(r@) =~= relay_outputs_spec());
    r
}

pub open spec fn dynamic_prop_keys_spec() -> Seq<Seq<char>> {
    seq![
        "DefaultAnim"@, "RandomAnimation"@, "MinAnimTime"@, "MaxAnimTime"@, "HoldAnimation"@,
        "AnimateEveryFrame"@, "DisableBoneFollowers"@, "StartDisabled"@, "skin"@, "SetBodyGroup"@,
        "LightingOrigin"@, "SuppressAnimSounds"@, "PerformanceMode"@, "ExplodeDamage"@, "ExplodeRadius"@,
        "PressureDelay"@,
    ]
}

pub fn dynamic_prop_keys() -> (r: Vec<&'static str>)
    ensures
        names(r@) == dynamic_prop_keys_spec(),
{
    let r = vec![
        "DefaultAnim", "RandomAnimation", "MinAnimTime", "MaxAnimTime", "HoldAnimation", "AnimateEveryFrame",
        "DisableBoneFollowers", "StartDisabled", "skin", "SetBodyGroup", "LightingOrigin",
        "SuppressAnimSounds", "PerformanceMode", "ExplodeDamage", "ExplodeRadius", "PressureDelay",
    ];
    assert(names(r@) =~= dynamic_prop_keys_spec());
    r
}

pub open spec fn dynamic_prop_inputs_spec() -> Seq<InputDefView> {
    seq![
        declared_input("SetAnimation"@, FieldType::String),
        declared_input("SetAnimationNoReset"@, FieldType::String),
        declared_input("SetDefaultAnimation"@, FieldType::String),
        declared_input("SetPlaybackRate"@, FieldType::Float), declared_input("TurnOn"@, FieldType::Void),
        declared_input("TurnOff"@, FieldType::Void), declared_input("Enable"@, FieldType::Void),
        declared_input("Disable"@, FieldType::Void), declared_input("EnableCollision"@, FieldType::Void),
        declared_input("DisableCollision"@, FieldType::Void),
        declared_input("BecomeRagdoll"@, FieldType::Void), declared_input("FadeAndKill"@, FieldType::Void),
        declared_input("Break"@, FieldType::Void), declared_input("SetBodyGroup"@, FieldType::Int),
        declared_input("skin"@, FieldType::Int),
    ]
}

pub fn dynamic_prop_inputs() -> (r: Vec<InputDef>)
    ensures
        inputs(r@) == dynamic_prop_inputs_spec(),
{
    let r = vec![
        InputDef::new("SetAnimation", FieldType::String),
        InputDef::new("SetAnimationNoReset", FieldType::String),
        InputDef::new("SetDefaultAnimation", FieldType::String),
        InputDef::new("SetPlaybackRate", FieldType::Float), InputDef::new("TurnOn", FieldType::Void),
        InputDef::new("TurnOff", FieldType::Void), InputDef::new("Enable", FieldType::Void),
        InputDef::new("Disable", FieldType::Void), InputDef::new("EnableCollision", FieldType::Void),
        InputDef::new("DisableCollision", FieldType::Void), InputDef::new("BecomeRagdoll", FieldType::Void),
        InputDef::new("FadeAndKill", FieldType::Void), InputDef::new("Break", FieldType::Void),
        InputDef::new("SetBodyGroup", FieldType::Int), InputDef::new("skin", FieldType::Int),
    ];
    assert(inputs(r@) =~= dynamic_prop_inputs_spec());
    r
}

pub open spec fn dynamic_prop_outputs_spec() -> Seq<Seq<char>> {
    seq![
        "OnAnimationBegun"@, "OnAnimationDone"@, "OnBreak"@,
    ]
}

pub fn dynamic_prop_outputs() -> (r: Vec<&'static str>)
    ensures
        names(r@) == dynamic_prop_outputs_spec(),
{
    let r = vec![
        "OnAnimationBegun", "OnAnimationDone", "OnBreak",
    ];
    assert(names(r@) =~= dynamic_prop_outputs_spec());
    r
}

pub open spec fn light_keys_spec() -> Seq<Seq<char>> {
    seq![
        "style"@, "pattern"@, "pitch"@,
    ]
}

pub fn light_keys() -> (r: Vec<&'static str>)
    ensures
        names(r@) == light_keys_spec(),
{
    let r = vec![
        "style", "pattern", "pitch",
    ];
    assert(names(r@) =~= light_keys_spec());
    r
}

pub open spec fn light_inputs_spec() -> Seq<InputDefView> {
    seq![
        declared_input("SetPattern"@, FieldType::String), declared_input("FadeToPattern"@, FieldType::String),
        declared_input("Toggle"@, FieldType::Void), declared_input("TurnOn"@, FieldType::Void),
        declared_input("TurnOff"@, FieldType::Void),
    ]
}

pub fn light_inputs() -> (r: Vec<InputDef>)
    ensures
        inputs(r@) == light_inputs_spec(),
{
    let r = vec![
        InputDef::new("SetPattern", FieldType::String), InputDef::new("FadeToPattern", FieldType::String),
        InputDef::new("Toggle", FieldType::Void), InputDef::new("TurnOn", FieldType::Void),
        InputDef::new("TurnOff", FieldType::Void),
    ];
    assert(inputs(r@) =~= light_inputs_spec());
    r
}

pub open spec fn env_light_keys_spec() -> Seq<Seq<char>> {
    seq![
        "_light"@, "_ambient"@, "style"@, "pattern"@, "pitch"@,
    ]
}

pub fn env_light_keys() -> (r: Vec<&'static str>)
    ensures
        names(r@) == env_light_keys_spec(),
{
    let r = vec![
        "_light", "_ambient", "style", "pattern", "pitch",
    ];
    assert(names(r@) =~= env_light_keys_spec());
    r
}

pub open spec fn brush_keys_spec() -> Seq<Seq<char>> {
    seq![
        "StartDisabled"@, "Solidity"@, "solidbsp"@, "excludednpc"@, "invert_exclusion"@,
    ]
}

pub fn brush_keys() -> (r: Vec<&'static str>)
    ensures
        names(r@) == brush_keys_spec(),
{
    let r = vec![
        "StartDisabled", "Solidity", "solidbsp", "excludednpc", "invert_exclusion",
    ];
    assert(names(r@) =~= brush_keys_spec());
    r
}

pub open spec fn brush_inputs_spec() -> Seq<InputDefView> {
    seq![
        declared_input("Enable"@, FieldType::Void), declared_input("Disable"@, FieldType::Void),
        declared_input("Toggle"@, FieldType::Void), declared_input("SetExcluded"@, FieldType::String),
        declared_input("SetInvert"@, FieldType::Bool),
    ]
}

pub fn brush_inputs() -> (r: Vec<InputDef>)
    ensures
        inputs(r@) == brush_inputs_spec(),
{
    let r = vec![
        InputDef::new("Enable", FieldType::Void), InputDef::new("Disable", FieldType::Void),
        InputDef::new("Toggle", FieldType::Void), InputDef::new("SetExcluded", FieldType::String),
        InputDef::new("SetInvert", FieldType::Bool),
    ];
    assert(inputs(r@) =~= brush_inputs_spec());
    r
}

pub open spec fn area_portal_keys_spec() -> Seq<Seq<char>> {
    seq![
        "portalnumber"@, "StartOpen"@, "PortalVersion"@, "FadeStartDist"@, "FadeDist"@, "TranslucencyLimit"@,
        "BackgroundBModel"@,
    ]
}

pub fn area_portal_keys() -> (r: Vec<&'static str>)
    ensures
        names(r@) == area_portal_keys_spec(),
{
    let r = vec![
        "portalnumber", "StartOpen", "PortalVersion", "FadeStartDist", "FadeDist", "TranslucencyLimit",
        "BackgroundBModel",
    ];
    assert(names(r@) =~= area_portal_keys_spec());
    r
}

pub open spec fn area_portal_inputs_spec() -> Seq<InputDefView> {
    seq![
        declared_input("Open"@, FieldType::Void), declared_input("Close"@, FieldType::Void),
        declared_input("Toggle"@, FieldType::Void), declared_input("TurnOn"@, FieldType::Void),
        declared_input("TurnOff"@, FieldType::Void),
    ]
}

pub fn area_portal_inputs() -> (r: Vec<InputDef>)
    ensures
        inputs(r@) == area_portal_inputs_spec(),
{
    let r = vec![
        InputDef::new("Open", FieldType::Void), InputDef::new("Close", FieldType::Void),
        InputDef::new("Toggle", FieldType::Void), InputDef::new("TurnOn", FieldType::Void),
        InputDef::new("TurnOff", FieldType::Void),
    ];
    assert(inputs(r@) =~= area_portal_inputs_spec());
    r
}

pub open spec fn instance_io_proxy_inputs_spec() -> Seq<InputDefView> {
    seq![
        declared_input("OnProxyRelay1"@, FieldType::String),
        declared_input("OnProxyRelay2"@, FieldType::String),
        declared_input("OnProxyRelay3"@, FieldType::String),
        declared_input("OnProxyRelay4"@, FieldType::String),
        declared_input("OnProxyRelay5"@, FieldType::String),
        declared_input("OnProxyRelay6"@, FieldType::String),
        declared_input("OnProxyRelay7"@, FieldType::String),
        declared_input("OnProxyRelay8"@, FieldType::String),
        declared_input("OnProxyRelay9"@, FieldType::String),
        declared_input("OnProxyRelay10"@, FieldType::String),
        declared_input("OnProxyRelay11"@, FieldType::String),
        declared_input("OnProxyRelay12"@, FieldType::String),
        declared_input("OnProxyRelay13"@, FieldType::String),
        declared_input("OnProxyRelay14"@, FieldType::String),
        declared_input("OnProxyRelay15"@, FieldType::String),
        declared_input("OnProxyRelay16"@, FieldType::String),
        declared_input("OnProxyRelay17"@, FieldType::String),
        declared_input("OnProxyRelay18"@, FieldType::String),
        declared_input("OnProxyRelay19"@, FieldType::String),
        declared_input("OnProxyRelay20"@, FieldType::String),
        declared_input("OnProxyRelay21"@, FieldType::String),
        declared_input("OnProxyRelay22"@, FieldType::String),
        declared_input("OnProxyRelay23"@, FieldType::String),
        declared_input("OnProxyRelay24"@, FieldType::String),
        declared_input("OnProxyRelay25"@, FieldType::String),
        declared_input("OnProxyRelay26"@, FieldType::String),
        declared_input("OnProxyRelay27"@, FieldType::String),
        declared_input("OnProxyRelay28"@, FieldType::String),
        declared_input("OnProxyRelay29"@, FieldType::String),
        declared_input("OnProxyRelay30"@, FieldType::String),
    ]
}

pub fn instance_io_proxy_inputs() -> (r: Vec<InputDef>)
    ensures
        inputs(r@) == instance_io_proxy_inputs_spec(),
{
    let r = vec![
        InputDef::new("OnProxyRelay1", FieldType::String), InputDef::new("OnProxyRelay2", FieldType::String),
        InputDef::new("OnProxyRelay3", FieldType::String), InputDef::new("OnProxyRelay4", FieldType::String),
        InputDef::new("OnProxyRelay5", FieldType::String), InputDef::new("OnProxyRelay6", FieldType::String),
        InputDef::new("OnProxyRelay7", FieldType::String), InputDef::new("OnProxyRelay8", FieldType::String),
        InputDef::new("OnProxyRelay9", FieldType::String), InputDef::new("OnProxyRelay10", FieldType::String),
        InputDef::new("OnProxyRelay11", FieldType::String),
        InputDef::new("OnProxyRelay12", FieldType::String),
        InputDef::new("OnProxyRelay13", FieldType::String),
        InputDef::new("OnProxyRelay14", FieldType::String),
        InputDef::new("OnProxyRelay15", FieldType::String),
        InputDef::new("OnProxyRelay16", FieldType::String),
        InputDef::new("OnProxyRelay17", FieldType::String),
        InputDef::new("OnProxyRelay18", FieldType::String),
        InputDef::new("OnProxyRelay19", FieldType::String),
        InputDef::new("OnProxyRelay20", FieldType::String),
        InputDef::new("OnProxyRelay21", FieldType::String),
        InputDef::new("OnProxyRelay22", FieldType::String),
        InputDef::new("OnProxyRelay23", FieldType::String),
        InputDef::new("OnProxyRelay24", FieldType::String),
        InputDef::new("OnProxyRelay25", FieldType::String),
        InputDef::new("OnProxyRelay26", FieldType::String),
        InputDef::new("OnProxyRelay27", FieldType::String),
        InputDef::new("OnProxyRelay28", FieldType::String),
        InputDef::new("OnProxyRelay29", FieldType::String),
        InputDef::new("OnProxyRelay30", FieldType::String),
    ];
    assert(inputs(r@) =~= instance_io_proxy_inputs_spec());
    r
}

pub open spec fn instance_io_proxy_outputs_spec() -> Seq<Seq<char>> {
    seq![
        "OnProxyRelay1"@, "OnProxyRelay2"@, "OnProxyRelay3"@, "OnProxyRelay4"@, "OnProxyRelay5"@,
        "OnProxyRelay6"@, "OnProxyRelay7"@, "OnProxyRelay8"@, "OnProxyRelay9"@, "OnProxyRelay10"@,
        "OnProxyRelay11"@, "OnProxyRelay12"@, "OnProxyRelay13"@, "OnProxyRelay14"@, "OnProxyRelay15"@,
        "OnProxyRelay16"@, "OnProxyRelay17"@, "OnProxyRelay18"@, "OnProxyRelay19"@, "OnProxyRelay20"@,
        "OnProxyRelay21"@, "OnProxyRelay22"@, "OnProxyRelay23"@, "OnProxyRelay24"@, "OnProxyRelay25"@,
        "OnProxyRelay26"@, "OnProxyRelay27"@, "OnProxyRelay28"@, "OnProxyRelay29"@, "OnProxyRelay30"@,
    ]
}

pub fn instance_io_proxy_outputs() -> (r: Vec<&'static str>)
    ensures
        names(r@) == instance_io_proxy_outputs_spec(),
{
    let r = vec![
        "OnProxyRelay1", "OnProxyRelay2", "OnProxyRelay3", "OnProxyRelay4", "OnProxyRelay5", "OnProxyRelay6",
        "OnProxyRelay7", "OnProxyRelay8", "OnProxyRelay9", "OnProxyRelay10", "OnProxyRelay11",
        "OnProxyRelay12", "OnProxyRelay13", "OnProxyRelay14", "OnProxyRelay15", "OnProxyRelay16",
        "OnProxyRelay17", "OnProxyRelay18", "OnProxyRelay19", "OnProxyRelay20", "OnProxyRelay21",
        "OnProxyRelay22", "OnProxyRelay23", "OnProxyRelay24", "OnProxyRelay25", "OnProxyRelay26",
        "OnProxyRelay27", "OnProxyRelay28", "OnProxyRelay29", "OnProxyRelay30",
    ];
    assert(names(r@) =~= instance_io_proxy_outputs_spec());
    r
}

pub open spec fn door_keys_spec() -> Seq<Seq<char>> {
    seq![
        "movedir"@, "spawnpos"@, "forceclosed"@, "dmg"@, "ignoredebris"@, "loopmovesound"@, "noise1"@,
        "noise2"@, "startclosesound"@, "closesound"@, "locked_sentence"@, "unlocked_sentence"@,
        "locked_sound"@, "unlocked_sound"@, "solidbsp"@, "lip"@, "wait"@, "distance"@,
    ]
}

pub fn door_keys() -> (r: Vec<&'static str>)
    ensures
        names(r@) == door_keys_spec(),
{
    let r = vec![
        "movedir", "spawnpos", "forceclosed", "dmg", "ignoredebris", "loopmovesound", "noise1", "noise2",
        "startclosesound", "closesound", "locked_sentence", "unlocked_sentence", "locked_sound",
        "unlocked_sound", "solidbsp", "lip", "wait", "distance",
    ];
    assert(names(r@) =~= door_keys_spec());
    r
}

pub open spec fn door_inputs_spec() -> Seq<InputDefView> {
    seq![
        declared_input("Open"@, FieldType::Void), declared_input("Close"@, FieldType::Void),
        declared_input("Toggle"@, FieldType::Void), declared_input("Lock"@, FieldType::Void),
        declared_input("Unlock"@, FieldType::Void), declared_input("SetSpeed"@, FieldType::Float),
    ]
}

pub fn door_inputs() -> (r: Vec<InputDef>)
    ensures
        inputs(r@) == door_inputs_spec(),
{
    let r = vec![
        InputDef::new("Open", FieldType::Void), InputDef::new("Close", FieldType::Void),
        InputDef::new("Toggle", FieldType::Void), InputDef::new("Lock", FieldType::Void),
        InputDef::new("Unlock", FieldType::Void), InputDef::new("SetSpeed", FieldType::Float),
    ];
    assert(inputs(r@) =~= door_inputs_spec());
    r
}

pub open spec fn door_outputs_spec() -> Seq<Seq<char>> {
    seq![
        "OnClose"@, "OnOpen"@, "OnFullyClosed"@, "OnFullyOpen"@, "OnBlockedClosing"@, "OnBlockedOpening"@,
        "OnUnblockedClosing"@, "OnUnblockedOpening"@, "OnLockedUse"@,
    ]
}

pub fn door_outputs() -> (r: Vec<&'static str>)
    ensures
        names(r@) == door_outputs_spec(),
{
    let r = vec![
        "OnClose", "OnOpen", "OnFullyClosed", "OnFullyOpen", "OnBlockedClosing", "OnBlockedOpening",
        "OnUnblockedClosing", "OnUnblockedOpening", "OnLockedUse",
    ];
    assert(names(r@) =~= door_outputs_spec());
    r
}

pub open spec fn move_linear_keys_spec() -> Seq<Seq<char>> {
    seq![
        "movedir"@, "startposition"@, "movedistance"@, "blockdamage"@, "startsound"@, "stopsound"@, "lip"@,
        "wait"@, "distance"@,
    ]
}

pub fn move_linear_keys() -> (r: Vec<&'static str>)
    ensures
        names(r@) == move_linear_keys_spec(),
{
    let r = vec![
        "movedir", "startposition", "movedistance", "blockdamage", "startsound", "stopsound", "lip", "wait",
        "distance",
    ];
    assert(names(r@) =~= move_linear_keys_spec());
    r
}

pub open spec fn move_linear_inputs_spec() -> Seq<InputDefView> {
    seq![
        declared_input("Open"@, FieldType::Void), declared_input("Close"@, FieldType::Void),
        declared_input("SetPosition"@, FieldType::Float), declared_input("SetSpeed"@, FieldType::Float),
    ]
}

pub fn move_linear_inputs() -> (r: Vec<InputDef>)
    ensures
        inputs(r@) == move_linear_inputs_spec(),
{
    let r = vec![
        InputDef::new("Open", FieldType::Void), InputDef::new("Close", FieldType::Void),
        InputDef::new("SetPosition", FieldType::Float), InputDef::new("SetSpeed", FieldType::Float),
    ];
    assert(inputs(r@) =~= move_linear_inputs_spec());
    r
}

pub open spec fn move_linear_outputs_spec() -> Seq<Seq<char>> {
    seq![
        "OnFullyOpen"@, "OnFullyClosed"@,
    ]
}

pub fn move_linear_outputs() -> (r: Vec<&'static str>)
    ensures
        names(r@) == move_linear_outputs_spec(),
{
    let r = vec![
        "OnFullyOpen", "OnFullyClosed",
    ];
    assert(names(r@) =~= move_linear_outputs_spec());
    r
}

pub open spec fn button_keys_spec() -> Seq<Seq<char>> {
    seq![
        "movedir"@, "sounds"@, "locked_sound"@, "unlocked_sound"@, "locked_sentence"@, "unlocked_sentence"@,
        "min_use_angle"@, "lip"@, "wait"@, "distance"@,
    ]
}

pub fn button_keys() -> (r: Vec<&'static str>)
    ensures
        names(r@) == button_keys_spec(),
{
    let r = vec![
        "movedir", "sounds", "locked_sound", "unlocked_sound", "locked_sentence", "unlocked_sentence",
        "min_use_angle", "lip", "wait", "distance",
    ];
    assert(names(r@) =~= button_keys_spec());
    r
}

pub open spec fn button_inputs_spec() -> Seq<InputDefView> {
    seq![
        declared_input("Lock"@, FieldType::Void), declared_input("Unlock"@, FieldType::Void),
        declared_input("Press"@, FieldType::Void), declared_input("PressIn"@, FieldType::Void),
        declared_input("PressOut"@, FieldType::Void),
    ]
}

pub fn button_inputs() -> (r: Vec<InputDef>)
    ensures
        inputs(r@) == button_inputs_spec(),
{
    let r = vec![
        InputDef::new("Lock", FieldType::Void), InputDef::new("Unlock", FieldType::Void),
        InputDef::new("Press", FieldType::Void), InputDef::new("PressIn", FieldType::Void),
        InputDef::new("PressOut", FieldType::Void),
    ];
    assert(inputs(r@) =~= button_inputs_spec());
    r
}

pub open spec fn button_outputs_spec() -> Seq<Seq<char>> {
    seq![
        "OnDamaged"@, "OnPressed"@, "OnUseLocked"@, "OnIn"@, "OnOut"@,
    ]
}

pub fn button_outputs() -> (r: Vec<&'static str>)
    ensures
        names(r@) == button_outputs_spec(),
{
    let r = vec![
        "OnDamaged", "OnPressed", "OnUseLocked", "OnIn", "OnOut",
    ];
    assert(names(r@) =~= button_outputs_spec());
    r
}

pub open spec fn rotating_keys_spec() -> Seq<Seq<char>> {
    seq![
        "fanfriction"@, "volume"@, "maxspeed"@, "dmg"@, "message"@, "solidbsp"@,
    ]
}

pub fn rotating_keys() -> (r: Vec<&'static str>)
    ensures
        names(r@) == rotating_keys_spec(),
{
    let r = vec![
        "fanfriction", "volume", "maxspeed", "dmg", "message", "solidbsp",
    ];
    assert(names(r@) =~= rotating_keys_spec());
    r
}

pub open spec fn rotating_inputs_spec() -> Seq<InputDefView> {
    seq![
        declared_input("SetSpeed"@, FieldType::Float), declared_input("GetSpeed"@, FieldType::Void),
        declared_input("Start"@, FieldType::Void), declared_input("Stop"@, FieldType::Void),
        declared_input("Toggle"@, FieldType::Void), declared_input("Reverse"@, FieldType::Void),
        declared_input("StartForward"@, FieldType::Void), declared_input("StartBackward"@, FieldType::Void),
        declared_input("StopAtStartPos"@, FieldType::Void),
    ]
}

pub fn rotating_inputs() -> (r: Vec<InputDef>)
    ensures
        inputs(r@) == rotating_inputs_spec(),
{
    let r = vec![
        InputDef::new("SetSpeed", FieldType::Float), InputDef::new("GetSpeed", FieldType::Void),
        InputDef::new("Start", FieldType::Void), InputDef::new("Stop", FieldType::Void),
        InputDef::new("Toggle", FieldType::Void), InputDef::new("Reverse", FieldType::Void),
        InputDef::new("StartForward", FieldType::Void), InputDef::new("StartBackward", FieldType::Void),
        InputDef::new("StopAtStartPos", FieldType::Void),
    ];
    assert(inputs(r@) =~= rotating_inputs_spec());
    r
}

pub open spec fn rotating_outputs_spec() -> Seq<Seq<char>> {
    seq![
        "OnGetSpeed"@,
    ]
}

pub fn rotating_outputs() -> (r: Vec<&'static str>)
    ensures
        names(r@) == rotating_outputs_spec(),
{
    let r = vec![
        "OnGetSpeed",
    ];
    assert(names(r@) =~= rotating_outputs_spec());
    r
}

pub open spec fn auto_keys_spec() -> Seq<Seq<char>> {
    seq![
        "globalstate"@,
    ]
}

pub fn auto_keys() -> (r: Vec<&'static str>)
    ensures
        names(r@) == auto_keys_spec(),
{
    let r = vec![
        "globalstate",
    ];
    assert(names(r@) =~= auto_keys_spec());
    r
}

pub open spec fn auto_outputs_spec() -> Seq<Seq<char>> {
    seq![
        "OnMapSpawn"@, "OnNewGame"@, "OnLoadGame"@, "OnMapTransition"@, "OnBackgroundMap"@, "OnMultiNewMap"@,
        "OnMultiNewRound"@,
    ]
}

pub fn auto_outputs() -> (r: Vec<&'static str>)
    ensures
        names(r@) == auto_outputs_spec(),
{
    let r = vec![
        "OnMapSpawn", "OnNewGame", "OnLoadGame", "OnMapTransition", "OnBackgroundMap", "OnMultiNewMap",
        "OnMultiNewRound",
    ];
    assert(names(r@) =~= auto_outputs_spec());
    r
}

pub open spec fn branch_keys_spec() -> Seq<Seq<char>> {
    seq![
        "InitialValue"@,
    ]
}

pub fn branch_keys() -> (r: Vec<&'static str>)
    ensures
        names(r@) == branch_keys_spec(),
{
    let r = vec![
        "InitialValue",
    ];
    assert(names(r@) =~= branch_keys_spec());
    r
}

pub open spec fn branch_inputs_spec() -> Seq<InputDefView> {
    seq![
        declared_input("SetValue"@, FieldType::Bool), declared_input("SetValueTest"@, FieldType::Bool),
        declared_input("Toggle"@, FieldType::Void), declared_input("ToggleTest"@, FieldType::Void),
        declared_input("Test"@, FieldType::Void),
    ]
}

pub fn branch_inputs() -> (r: Vec<InputDef>)
    ensures
        inputs(r@) == branch_inputs_spec(),
{
    let r = vec![
        InputDef::new("SetValue", FieldType::Bool), InputDef::new("SetValueTest", FieldType::Bool),
        InputDef::new("Toggle", FieldType::Void), InputDef::new("ToggleTest", FieldType::Void),
        InputDef::new("Test", FieldType::Void),
    ];
    assert(inputs(r@) =~= branch_inputs_spec());
    r
}

pub open spec fn branch_outputs_spec() -> Seq<Seq<char>> {
    seq![
        "OnTrue"@, "OnFalse"@,
    ]
}

pub fn branch_outputs() -> (r: Vec<&'static str>)
    ensures
        names(r@) == branch_outputs_spec(),
{
    let r = vec![
        "OnTrue", "OnFalse",
    ];
    assert(names(r@) =~= branch_outputs_spec());
    r
}

pub open spec fn branch_list_keys_spec() -> Seq<Seq<char>> {
    seq![
        "Branch01"@, "Branch02"@, "Branch03"@, "Branch04"@, "Branch05"@, "Branch06"@, "Branch07"@,
        "Branch08"@, "Branch09"@, "Branch10"@, "Branch11"@, "Branch12"@, "Branch13"@, "Branch14"@,
        "Branch15"@, "Branch16"@,
    ]
}

pub fn branch_list_keys() -> (r: Vec<&'static str>)
    ensures
        names(r@) == branch_list_keys_spec(),
{
    let r = vec![
        "Branch01", "Branch02", "Branch03", "Branch04", "Branch05", "Branch06", "Branch07", "Branch08",
        "Branch09", "Branch10", "Branch11", "Branch12", "Branch13", "Branch14", "Branch15", "Branch16",
    ];
    assert(names(r@) =~= branch_list_keys_spec());
    r
}

pub open spec fn branch_list_inputs_spec() -> Seq<InputDefView> {
    seq![
        declared_input("Test"@, FieldType::Input), declared_input("_OnLogicBranchChanged"@, FieldType::Input),
        declared_input("_OnLogicBranchRemoved"@, FieldType::Input),
    ]
}

pub fn branch_list_inputs() -> (r: Vec<InputDef>)
    ensures
        inputs(r@) == branch_list_inputs_spec(),
{
    let r = vec![
        InputDef::new("Test", FieldType::Input), InputDef::new("_OnLogicBranchChanged", FieldType::Input),
        InputDef::new("_OnLogicBranchRemoved", FieldType::Input),
    ];
    assert(inputs(r@) =~= branch_list_inputs_spec());
    r
}

pub open spec fn branch_list_outputs_spec() -> Seq<Seq<char>> {
    seq![
        "OnAllTrue"@, "OnAllFalse"@, "OnMixed"@,
    ]
}

pub fn branch_list_outputs() -> (r: Vec<&'static str>)
    ensures
        names(r@) == branch_list_outputs_spec(),
{
    let r = vec![
        "OnAllTrue", "OnAllFalse", "OnMixed",
    ];
    assert(names(r@) =~= branch_list_outputs_spec());
    r
}

pub open spec fn timer_keys_spec() -> Seq<Seq<char>> {
    seq![
        "StartDisabled"@, "RefireTime"@, "UseRandomTime"@, "LowerRandomBound"@, "UpperRandomBound"@,
    ]
}

pub fn timer_keys() -> (r: Vec<&'static str>)
    ensures
        names(r@) == timer_keys_spec(),
{
    let r = vec![
        "StartDisabled", "RefireTime", "UseRandomTime", "LowerRandomBound", "UpperRandomBound",
    ];
    assert(names(r@) =~= timer_keys_spec());
    r
}

pub open spec fn timer_inputs_spec() -> Seq<InputDefView> {
    seq![
        declared_input("RefireTime"@, FieldType::Float), declared_input("FireTimer"@, FieldType::Void),
        declared_input("Enable"@, FieldType::Void), declared_input("Disable"@, FieldType::Void),
        declared_input("Toggle"@, FieldType::Void), declared_input("AddToTimer"@, FieldType::Float),
        declared_input("ResetTimer"@, FieldType::Void),
        declared_input("SubtractFromTimer"@, FieldType::Float),
        declared_input("UseRandomTime"@, FieldType::Int),
        declared_input("LowerRandomBound"@, FieldType::Float),
        declared_input("UpperRandomBound"@, FieldType::Float),
    ]
}

pub fn timer_inputs() -> (r: Vec<InputDef>)
    ensures
        inputs(r@) == timer_inputs_spec(),
{
    let r = vec![
        InputDef::new("RefireTime", FieldType::Float), InputDef::new("FireTimer", FieldType::Void),
        InputDef::new("Enable", FieldType::Void), InputDef::new("Disable", FieldType::Void),
        InputDef::new("Toggle", FieldType::Void), InputDef::new("AddToTimer", FieldType::Float),
        InputDef::new("ResetTimer", FieldType::Void), InputDef::new("SubtractFromTimer", FieldType::Float),
        InputDef::new("UseRandomTime", FieldType::Int), InputDef::new("LowerRandomBound", FieldType::Float),
        InputDef::new("UpperRandomBound", FieldType::Float),
    ];
    assert(inputs(r@) =~= timer_inputs_spec());
    r
}

pub open spec fn timer_outputs_spec() -> Seq<Seq<char>> {
    seq![
        "OnTimer"@, "OnTimerHigh"@, "OnTimerLow"@,
    ]
}

pub fn timer_outputs() -> (r: Vec<&'static str>)
    ensures
        names(r@) == timer_outputs_spec(),
{
    let r = vec![
        "OnTimer", "OnTimerHigh", "OnTimerLow",
    ];
    assert(names(r@) =~= timer_outputs_spec());
    r
}

pub open spec fn math_counter_keys_spec() -> Seq<Seq<char>> {
    seq![
        "min"@, "max"@, "startvalue"@, "StartDisabled"@,
    ]
}

pub fn math_counter_keys() -> (r: Vec<&'static str>)
    ensures
        names(r@) == math_counter_keys_spec(),
{
    let r = vec![
        "min", "max", "startvalue", "StartDisabled",
    ];
    assert(names(r@) =~= math_counter_keys_spec());
    r
}

pub open spec fn math_counter_inputs_spec() -> Seq<InputDefView> {
    seq![
        declared_input("Add"@, FieldType::Float), declared_input("Divide"@, FieldType::Float),
        declared_input("Multiply"@, FieldType::Float), declared_input("SetValue"@, FieldType::Float),
        declared_input("SetValueNoFire"@, FieldType::Float),
        declared_input("SetMaxValueNoFire"@, FieldType::Float),
        declared_input("SetMinValueNoFire"@, FieldType::Float), declared_input("Subtract"@, FieldType::Float),
        declared_input("SetHitMax"@, FieldType::Float), declared_input("SetHitMin"@, FieldType::Float),
        declared_input("GetValue"@, FieldType::Void), declared_input("Enable"@, FieldType::Void),
        declared_input("Disable"@, FieldType::Void),
    ]
}

pub fn math_counter_inputs() -> (r: Vec<InputDef>)
    ensures
        inputs(r@) == math_counter_inputs_spec(),
{
    let r = vec![
        InputDef::new("Add", FieldType::Float), InputDef::new("Divide", FieldType::Float),
        InputDef::new("Multiply", FieldType::Float), InputDef::new("SetValue", FieldType::Float),
        InputDef::new("SetValueNoFire", FieldType::Float),
        InputDef::new("SetMaxValueNoFire", FieldType::Float),
        InputDef::new("SetMinValueNoFire", FieldType::Float), InputDef::new("Subtract", FieldType::Float),
        InputDef::new("SetHitMax", FieldType::Float), InputDef::new("SetHitMin", FieldType::Float),
        InputDef::new("GetValue", FieldType::Void), InputDef::new("Enable", FieldType::Void),
        InputDef::new("Disable", FieldType::Void),
    ];
    assert(inputs(r@) =~= math_counter_inputs_spec());
    r
}

pub open spec fn math_counter_outputs_spec() -> Seq<Seq<char>> {
    seq![
        "OutValue"@, "OnHitMin"@, "OnHitMax"@, "OnChangedFromMin"@, "OnChangedFromMax"@, "OnGetValue"@,
    ]
}

pub fn math_counter_outputs() -> (r: Vec<&'static str>)
    ensures
        names(r@) == math_counter_outputs_spec(),
{
    let r = vec![
        "OutValue", "OnHitMin", "OnHitMax", "OnChangedFromMin", "OnChangedFromMax", "OnGetValue",
    ];
    assert(names(r@) =~= math_counter_outputs_spec());
    r
}

pub open spec fn tonemap_controller_inputs_spec() -> Seq<InputDefView> {
    seq![
        declared_input("SetTonemapRate"@, FieldType::Float),
        declared_input("SetAutoExposureMin"@, FieldType::Float),
        declared_input("SetAutoExposureMax"@, FieldType::Float),
        declared_input("UseDefaultAutoExposure"@, FieldType::Void),
        declared_input("UseDefaultBloomScale"@, FieldType::Void),
        declared_input("SetBloomScale"@, FieldType::Float),
        declared_input("SetBloomScaleRange"@, FieldType::Float),
        declared_input("SetBloomExponent"@, FieldType::Float),
        declared_input("SetBloomSaturation"@, FieldType::Float),
        declared_input("SetTonemapPercentTarget"@, FieldType::Float),
        declared_input("SetTonemapPercentBrightPixels"@, FieldType::Float),
        declared_input("SetTonemapMinAvgLum"@, FieldType::Float),
    ]
}

pub fn tonemap_controller_inputs() -> (r: Vec<InputDef>)
    ensures
        inputs(r@) == tonemap_controller_inputs_spec(),
{
    let r = vec![
        InputDef::new("SetTonemapRate", FieldType::Float),
        InputDef::new("SetAutoExposureMin", FieldType::Float),
        InputDef::new("SetAutoExposureMax", FieldType::Float),
        InputDef::new("UseDefaultAutoExposure", FieldType::Void),
        InputDef::new("UseDefaultBloomScale", FieldType::Void),
        InputDef::new("SetBloomScale", FieldType::Float),
        InputDef::new("SetBloomScaleRange", FieldType::Float),
        InputDef::new("SetBloomExponent", FieldType::Float),
        InputDef::new("SetBloomSaturation", FieldType::Float),
        InputDef::new("SetTonemapPercentTarget", FieldType::Float),
        InputDef::new("SetTonemapPercentBrightPixels", FieldType::Float),
        InputDef::new("SetTonemapMinAvgLum", FieldType::Float),
    ];
    assert(inputs(r@) =~= tonemap_controller_inputs_spec());
    r
}

pub open spec fn case_keys_spec() -> Seq<Seq<char>> {
    seq![
        "Case01"@, "Case02"@, "Case03"@, "Case04"@, "Case05"@, "Case06"@, "Case07"@, "Case08"@, "Case09"@,
        "Case10"@, "Case11"@, "Case12"@, "Case13"@, "Case14"@, "Case15"@, "Case16"@,
    ]
}

pub fn case_keys() -> (r: Vec<&'static str>)
    ensures
        names(r@) == case_keys_spec(),
{
    let r = vec![
        "Case01", "Case02", "Case03", "Case04", "Case05", "Case06", "Case07", "Case08", "Case09", "Case10",
        "Case11", "Case12", "Case13", "Case14", "Case15", "Case16",
    ];
    assert(names(r@) =~= case_keys_spec());
    r
}

pub open spec fn case_inputs_spec() -> Seq<InputDefView> {
    seq![
        declared_input("InValue"@, FieldType::Input), declared_input("PickRandom"@, FieldType::Void),
        declared_input("PickRandomShuffle"@, FieldType::Void),
    ]
}

pub fn case_inputs() -> (r: Vec<InputDef>)
    ensures
        inputs(r@) == case_inputs_spec(),
{
    let r = vec![
        InputDef::new("InValue", FieldType::Input), InputDef::new("PickRandom", FieldType::Void),
        InputDef::new("PickRandomShuffle", FieldType::Void),
    ];
    assert(inputs(r@) =~= case_inputs_spec());
    r
}

pub open spec fn case_outputs_spec() -> Seq<Seq<char>> {
    seq![
        "OnCase01"@, "OnCase02"@, "OnCase03"@, "OnCase04"@, "OnCase05"@, "OnCase06"@, "OnCase07"@,
        "OnCase08"@, "OnCase09"@, "OnCase10"@, "OnCase11"@, "OnCase12"@, "OnCase13"@, "OnCase14"@,
        "OnCase15"@, "OnCase16"@, "OnDefault"@,
    ]
}

pub fn case_outputs() -> (r: Vec<&'static str>)
    ensures
        names(r@) == case_outputs_spec(),
{
    let r = vec![
        "OnCase01", "OnCase02", "OnCase03", "OnCase04", "OnCase05", "OnCase06", "OnCase07", "OnCase08",
        "OnCase09", "OnCase10", "OnCase11", "OnCase12", "OnCase13", "OnCase14", "OnCase15", "OnCase16",
        "OnDefault",
    ];
    assert(names(r@) =~= case_outputs_spec());
    r
}

pub open spec fn base_trigger_keys_spec() -> Seq<Seq<char>> {
    seq![
        "StartDisabled"@, "filtername"@,
    ]
}

pub fn base_trigger_keys() -> (r: Vec<&'static str>)
    ensures
        names(r@) == base_trigger_keys_spec(),
{
    let r = vec![
        "StartDisabled", "filtername",
    ];
    assert(names(r@) =~= base_trigger_keys_spec());
    r
}

pub open spec fn base_trigger_inputs_spec() -> Seq<InputDefView> {
    seq![
        declared_input("Enable"@, FieldType::Void), declared_input("Disable"@, FieldType::Void),
        declared_input("Toggle"@, FieldType::Void), declared_input("TouchTest"@, FieldType::Void),
        declared_input("StartTouch"@, FieldType::Void), declared_input("EndTouch"@, FieldType::Void),
    ]
}

pub fn base_trigger_inputs() -> (r: Vec<InputDef>)
    ensures
        inputs(r@) == base_trigger_inputs_spec(),
{
    let r = vec![
        InputDef::new("Enable", FieldType::Void), InputDef::new("Disable", FieldType::Void),
        InputDef::new("Toggle", FieldType::Void), InputDef::new("TouchTest", FieldType::Void),
        InputDef::new("StartTouch", FieldType::Void), InputDef::new("EndTouch", FieldType::Void),
    ];
    assert(inputs(r@) =~= base_trigger_inputs_spec());
    r
}

pub open spec fn trigger_multiple_outputs_spec() -> Seq<Seq<char>> {
    seq![
        "OnStartTouch"@, "OnStartTouchAll"@, "OnEndTouch"@, "OnEndTouchAll"@, "OnTouching"@, "OnNotTouching"@,
        "OnTrigger"@,
    ]
}

pub fn trigger_multiple_outputs() -> (r: Vec<&'static str>)
    ensures
        names(r@) == trigger_multiple_outputs_spec(),
{
    let r = vec![
        "OnStartTouch", "OnStartTouchAll", "OnEndTouch", "OnEndTouchAll", "OnTouching", "OnNotTouching",
        "OnTrigger",
    ];
    assert(names(r@) =~= trigger_multiple_outputs_spec());
    r
}

pub open spec fn trigger_multiple_keys_spec() -> Seq<Seq<char>> {
    seq![
        "StartDisabled"@, "filtername"@, "wait"@,
    ]
}

pub fn trigger_multiple_keys() -> (r: Vec<&'static str>)
    ensures
        names(r@) == trigger_multiple_keys_spec(),
{
    let r = vec![
        "StartDisabled", "filtername", "wait",
    ];
    assert(names(r@) =~= trigger_multiple_keys_spec());
    r
}

pub open spec fn trigger_hurt_keys_spec() -> Seq<Seq<char>> {
    seq![
        "StartDisabled"@, "filtername"@, "damage"@, "damagecap"@, "damagetype"@, "damagemodel"@,
        "nodmgforce"@,
    ]
}

pub fn trigger_hurt_keys() -> (r: Vec<&'static str>)
    ensures
        names(r@) == trigger_hurt_keys_spec(),
{
    let r = vec![
        "StartDisabled", "filtername", "damage", "damagecap", "damagetype", "damagemodel", "nodmgforce",
    ];
    assert(names(r@) =~= trigger_hurt_keys_spec());
    r
}

pub open spec fn trigger_hurt_inputs_spec() -> Seq<InputDefView> {
    seq![
        declared_input("Enable"@, FieldType::Void), declared_input("Disable"@, FieldType::Void),
        declared_input("Toggle"@, FieldType::Void), declared_input("TouchTest"@, FieldType::Void),
        declared_input("StartTouch"@, FieldType::Void), declared_input("EndTouch"@, FieldType::Void),
        declared_input("SetDamage"@, FieldType::Float),
    ]
}

pub fn trigger_hurt_inputs() -> (r: Vec<InputDef>)
    ensures
        inputs(r@) == trigger_hurt_inputs_spec(),
{
    let r = vec![
        InputDef::new("Enable", FieldType::Void), InputDef::new("Disable", FieldType::Void),
        InputDef::new("Toggle", FieldType::Void), InputDef::new("TouchTest", FieldType::Void),
        InputDef::new("StartTouch", FieldType::Void), InputDef::new("EndTouch", FieldType::Void),
        InputDef::new("SetDamage", FieldType::Float),
    ];
    assert(inputs(r@) =~= trigger_hurt_inputs_spec());
    r
}

pub open spec fn trigger_hurt_outputs_spec() -> Seq<Seq<char>> {
    seq![
        "OnStartTouch"@, "OnStartTouchAll"@, "OnEndTouch"@, "OnEndTouchAll"@, "OnTouching"@, "OnNotTouching"@,
        "OnHurt"@, "OnHurtPlayer"@,
    ]
}

pub fn trigger_hurt_outputs() -> (r: Vec<&'static str>)
    ensures
        names(r@) == trigger_hurt_outputs_spec(),
{
    let r = vec![
        "OnStartTouch", "OnStartTouchAll", "OnEndTouch", "OnEndTouchAll", "OnTouching", "OnNotTouching",
        "OnHurt", "OnHurtPlayer",
    ];
    assert(names(r@) =~= trigger_hurt_outputs_spec());
    r
}

pub open spec fn trigger_push_keys_spec() -> Seq<Seq<char>> {
    seq![
        "StartDisabled"@, "filtername"@, "pushdir"@, "alternateticksfix"@,
    ]
}

pub fn trigger_push_keys() -> (r: Vec<&'static str>)
    ensures
        names(r@) == trigger_push_keys_spec(),
{
    let r = vec![
        "StartDisabled", "filtername", "pushdir", "alternateticksfix",
    ];
    assert(names(r@) =~= trigger_push_keys_spec());
    r
}

pub open spec fn trigger_push_inputs_spec() -> Seq<InputDefView> {
    seq![
        declared_input("Enable"@, FieldType::Void), declared_input("Disable"@, FieldType::Void),
        declared_input("Toggle"@, FieldType::Void), declared_input("TouchTest"@, FieldType::Void),
        declared_input("StartTouch"@, FieldType::Void), declared_input("EndTouch"@, FieldType::Void),
        declared_input("SetPushDirection"@, FieldType::Vector),
    ]
}

pub fn trigger_push_inputs() -> (r: Vec<InputDef>)
    ensures
        inputs(r@) == trigger_push_inputs_spec(),
{
    let r = vec![
        InputDef::new("Enable", FieldType::Void), InputDef::new("Disable", FieldType::Void),
        InputDef::new("Toggle", FieldType::Void), InputDef::new("TouchTest", FieldType::Void),
        InputDef::new("StartTouch", FieldType::Void), InputDef::new("EndTouch", FieldType::Void),
        InputDef::new("SetPushDirection", FieldType::Vector),
    ];
    assert(inputs(r@) =~= trigger_push_inputs_spec());
    r
}

pub open spec fn base_trigger_outputs_spec() -> Seq<Seq<char>> {
    seq![
        "OnStartTouch"@, "OnStartTouchAll"@, "OnEndTouch"@, "OnEndTouchAll"@, "OnTouching"@, "OnNotTouching"@,
    ]
}

pub fn base_trigger_outputs() -> (r: Vec<&'static str>)
    ensures
        names(r@) == base_trigger_outputs_spec(),
{
    let r = vec![
        "OnStartTouch", "OnStartTouchAll", "OnEndTouch", "OnEndTouchAll", "OnTouching", "OnNotTouching",
    ];
    assert(names(r@) =~= base_trigger_outputs_spec());
    r
}

pub open spec fn trigger_teleport_keys_spec() -> Seq<Seq<char>> {
    seq![
        "StartDisabled"@, "filtername"@, "landmark"@, "UseLandmarkAngles"@, "CheckDestIfClearForPlayer"@,
    ]
}

pub fn trigger_teleport_keys() -> (r: Vec<&'static str>)
    ensures
        names(r@) == trigger_teleport_keys_spec(),
{
    let r = vec![
        "StartDisabled", "filtername", "landmark", "UseLandmarkAngles", "CheckDestIfClearForPlayer",
    ];
    assert(names(r@) =~= trigger_teleport_keys_spec());
    r
}

pub open spec fn trigger_teleport_inputs_spec() -> Seq<InputDefView> {
    seq![
        declared_input("Enable"@, FieldType::Void), declared_input("Disable"@, FieldType::Void),
        declared_input("Toggle"@, FieldType::Void), declared_input("TouchTest"@, FieldType::Void),
        declared_input("StartTouch"@, FieldType::Void), declared_input("EndTouch"@, FieldType::Void),
        declared_input("SetRemoteDestination"@, FieldType::String),
    ]
}

pub fn trigger_teleport_inputs() -> (r: Vec<InputDef>)
    ensures
        inputs(r@) == trigger_teleport_inputs_spec(),
{
    let r = vec![
        InputDef::new("Enable", FieldType::Void), InputDef::new("Disable", FieldType::Void),
        InputDef::new("Toggle", FieldType::Void), InputDef::new("TouchTest", FieldType::Void),
        InputDef::new("StartTouch", FieldType::Void), InputDef::new("EndTouch", FieldType::Void),
        InputDef::new("SetRemoteDestination", FieldType::String),
    ];
    assert(inputs(r@) =~= trigger_teleport_inputs_spec());
    r
}

pub open spec fn filter_class_keys_spec() -> Seq<Seq<char>> {
    seq![
        "Negated"@, "filterclass"@,
    ]
}

pub fn filter_class_keys() -> (r: Vec<&'static str>)
    ensures
        names(r@) == filter_class_keys_spec(),
{
    let r = vec![
        "Negated", "filterclass",
    ];
    assert(names(r@) =~= filter_class_keys_spec());
    r
}

pub open spec fn filter_inputs_spec() -> Seq<InputDefView> {
    seq![
        declared_input("TestActivator"@, FieldType::Input),
    ]
}

pub fn filter_inputs() -> (r: Vec<InputDef>)
    ensures
        inputs(r@) == filter_inputs_spec(),
{
    let r = vec![
        InputDef::new("TestActivator", FieldType::Input),
    ];
    assert(inputs(r@) =~= filter_inputs_spec());
    r
}

pub open spec fn filter_outputs_spec() -> Seq<Seq<char>> {
    seq![
        "OnPass"@, "OnFail"@,
    ]
}

pub fn filter_outputs() -> (r: Vec<&'static str>)
    ensures
        names(r@) == filter_outputs_spec(),
{
    let r = vec![
        "OnPass", "OnFail",
    ];
    assert(names(r@) =~= filter_outputs_spec());
    r
}

pub open spec fn filter_name_keys_spec() -> Seq<Seq<char>> {
    seq![
        "Negated"@, "filtername"@,
    ]
}

pub fn filter_name_keys() -> (r: Vec<&'static str>)
    ensures
        names(r@) == filter_name_keys_spec(),
{
    let r = vec![
        "Negated", "filtername",
    ];
    assert(names(r@) =~= filter_name_keys_spec());
    r
}

pub open spec fn filter_multi_keys_spec() -> Seq<Seq<char>> {
    seq![
        "Negated"@, "FilterType"@, "Filter01"@, "Filter02"@, "Filter03"@, "Filter04"@, "Filter05"@,
        "Filter06"@, "Filter07"@, "Filter08"@, "Filter09"@, "Filter10"@,
    ]
}

pub fn filter_multi_keys() -> (r: Vec<&'static str>)
    ensures
        names(r@) == filter_multi_keys_spec(),
{
    let r = vec![
        "Negated", "FilterType", "Filter01", "Filter02", "Filter03", "Filter04", "Filter05", "Filter06",
        "Filter07", "Filter08", "Filter09", "Filter10",
    ];
    assert(names(r@) =~= filter_multi_keys_spec());
    r
}

pub open spec fn base_filter_keys_spec() -> Seq<Seq<char>> {
    seq![
        "Negated"@,
    ]
}

pub fn base_filter_keys() -> (r: Vec<&'static str>)
    ensures
        names(r@) == base_filter_keys_spec(),
{
    let r = vec![
        "Negated",
    ];
    assert(names(r@) =~= base_filter_keys_spec());
    r
}

pub open spec fn filter_damage_type_keys_spec() -> Seq<Seq<char>> {
    seq![
        "Negated"@, "damagetype"@,
    ]
}

pub fn filter_damage_type_keys() -> (r: Vec<&'static str>)
    ensures
        names(r@) == filter_damage_type_keys_spec(),
{
    let r = vec![
        "Negated", "damagetype",
    ];
    assert(names(r@) =~= filter_damage_type_keys_spec());
    r
}

pub open spec fn filter_model_keys_spec() -> Seq<Seq<char>> {
    seq![
        "Negated"@, "model"@,
    ]
}

pub fn filter_model_keys() -> (r: Vec<&'static str>)
    ensures
        names(r@) == filter_model_keys_spec(),
{
    let r = vec![
        "Negated", "model",
    ];
    assert(names(r@) =~= filter_model_keys_spec());
    r
}

pub open spec fn point_teleport_inputs_spec() -> Seq<InputDefView> {
    seq![
        declared_input("Teleport"@, FieldType::Void),
        declared_input("TeleportToCurrentPos"@, FieldType::Void),
        declared_input("TeleportEntity"@, FieldType::String),
    ]
}

pub fn point_teleport_inputs() -> (r: Vec<InputDef>)
    ensures
        inputs(r@) == point_teleport_inputs_spec(),
{
    let r = vec![
        InputDef::new("Teleport", FieldType::Void), InputDef::new("TeleportToCurrentPos", FieldType::Void),
        InputDef::new("TeleportEntity", FieldType::String),
    ];
    assert(inputs(r@) =~= point_teleport_inputs_spec());
    r
}

pub open spec fn player_inputs_spec() -> Seq<InputDefView> {
    seq![
        declared_input("SetHealth"@, FieldType::Int),
    ]
}

pub fn player_inputs() -> (r: Vec<InputDef>)
    ensures
        inputs(r@) == player_inputs_spec(),
{
    let r = vec![
        InputDef::new("SetHealth", FieldType::Int),
    ];
    assert(inputs(r@) =~= player_inputs_spec());
    r
}

pub open spec fn logic_player_proxy_outputs_spec() -> Seq<Seq<char>> {
    seq![
        "OnJump"@, "OnDuck"@, "OnUnDuck"@, "PlayerDied"@, "PlayerHealth"@, "OnStartSlowingTime"@,
        "OnStopSlowingTime"@, "OnPrimaryPortalPlaced"@, "OnSecondaryPortalPlaced"@, "OnCoopPing"@,
    ]
}

pub fn logic_player_proxy_outputs() -> (r: Vec<&'static str>)
    ensures
        names(r@) == logic_player_proxy_outputs_spec(),
{
    let r = vec![
        "OnJump", "OnDuck", "OnUnDuck", "PlayerDied", "PlayerHealth", "OnStartSlowingTime",
        "OnStopSlowingTime", "OnPrimaryPortalPlaced", "OnSecondaryPortalPlaced", "OnCoopPing",
    ];
    assert(names(r@) =~= logic_player_proxy_outputs_spec());
    r
}

pub open spec fn revert_saved_keys_spec() -> Seq<Seq<char>> {
    seq![
        "loadtime"@, "duration"@, "holdtime"@,
    ]
}

pub fn revert_saved_keys() -> (r: Vec<&'static str>)
    ensures
        names(r@) == revert_saved_keys_spec(),
{
    let r = vec![
        "loadtime", "duration", "holdtime",
    ];
    assert(names(r@) =~= revert_saved_keys_spec());
    r
}

pub open spec fn revert_saved_inputs_spec() -> Seq<InputDefView> {
    seq![
        declared_input("Reload"@, FieldType::Void),
    ]
}

pub fn revert_saved_inputs() -> (r: Vec<InputDef>)
    ensures
        inputs(r@) == revert_saved_inputs_spec(),
{
    let r = vec![
        InputDef::new("Reload", FieldType::Void),
    ];
    assert(inputs(r@) =~= revert_saved_inputs_spec());
    r
}

pub open spec fn floor_button_keys_spec() -> Seq<Seq<char>> {
    seq![
        "skin"@,
    ]
}

pub fn floor_button_keys() -> (r: Vec<&'static str>)
    ensures
        names(r@) == floor_button_keys_spec(),
{
    let r = vec![
        "skin",
    ];
    assert(names(r@) =~= floor_button_keys_spec());
    r
}

pub open spec fn floor_button_inputs_spec() -> Seq<InputDefView> {
    seq![
        declared_input("PressIn"@, FieldType::Void), declared_input("PressOut"@, FieldType::Void),
        declared_input("skin"@, FieldType::Int),
    ]
}

pub fn floor_button_inputs() -> (r: Vec<InputDef>)
    ensures
        inputs(r@) == floor_button_inputs_spec(),
{
    let r = vec![
        InputDef::new("PressIn", FieldType::Void), InputDef::new("PressOut", FieldType::Void),
        InputDef::new("skin", FieldType::Int),
    ];
    assert(inputs(r@) =~= floor_button_inputs_spec());
    r
}

pub open spec fn floor_button_outputs_spec() -> Seq<Seq<char>> {
    seq![
        "OnPressed"@, "OnPressedOrange"@, "OnPressedBlue"@, "OnUnPressed"@,
    ]
}

pub fn floor_button_outputs() -> (r: Vec<&'static str>)
    ensures
        names(r@) == floor_button_outputs_spec(),
{
    let r = vec![
        "OnPressed", "OnPressedOrange", "OnPressedBlue", "OnUnPressed",
    ];
    assert(names(r@) =~= floor_button_outputs_spec());
    r
}

pub open spec fn test_chamber_door_keys_spec() -> Seq<Seq<char>> {
    seq![
        "AreaPortalWindow"@, "UseAreaPortalFade"@, "AreaPortalFadeStart"@, "AreaPortalFadeEnd"@,
    ]
}

pub fn test_chamber_door_keys() -> (r: Vec<&'static str>)
    ensures
        names(r@) == test_chamber_door_keys_spec(),
{
    let r = vec![
        "AreaPortalWindow", "UseAreaPortalFade", "AreaPortalFadeStart", "AreaPortalFadeEnd",
    ];
    assert(names(r@) =~= test_chamber_door_keys_spec());
    r
}

pub open spec fn test_chamber_door_inputs_spec() -> Seq<InputDefView> {
    seq![
        declared_input("Open"@, FieldType::Void), declared_input("Close"@, FieldType::Void),
        declared_input("Lock"@, FieldType::Void), declared_input("LockOpen"@, FieldType::Void),
        declared_input("Unlock"@, FieldType::Void),
    ]
}

pub fn test_chamber_door_inputs() -> (r: Vec<InputDef>)
    ensures
        inputs(r@) == test_chamber_door_inputs_spec(),
{
    let r = vec![
        InputDef::new("Open", FieldType::Void), InputDef::new("Close", FieldType::Void),
        InputDef::new("Lock", FieldType::Void), InputDef::new("LockOpen", FieldType::Void),
        InputDef::new("Unlock", FieldType::Void),
    ];
    assert(inputs(r@) =~= test_chamber_door_inputs_spec());
    r
}

pub open spec fn test_chamber_door_outputs_spec() -> Seq<Seq<char>> {
    seq![
        "OnOpen"@, "OnClose"@, "OnFullyOpen"@, "OnFullyClosed"@,
    ]
}

pub fn test_chamber_door_outputs() -> (r: Vec<&'static str>)
    ensures
        names(r@) == test_chamber_door_outputs_spec(),
{
    let r = vec![
        "OnOpen", "OnClose", "OnFullyOpen", "OnFullyClosed",
    ];
    assert(names(r@) =~= test_chamber_door_outputs_spec());
    r
}

pub open spec fn weighted_cube_keys_spec() -> Seq<Seq<char>> {
    seq![
        "skin"@, "CubeType"@, "SkinType"@, "NewSkins"@, "PaintPower"@, "allowfunnel"@,
    ]
}

pub fn weighted_cube_keys() -> (r: Vec<&'static str>)
    ensures
        names(r@) == weighted_cube_keys_spec(),
{
    let r = vec![
        "skin", "CubeType", "SkinType", "NewSkins", "PaintPower", "allowfunnel",
    ];
    assert(names(r@) =~= weighted_cube_keys_spec());
    r
}

pub open spec fn weighted_cube_inputs_spec() -> Seq<InputDefView> {
    seq![
        declared_input("Dissolve"@, FieldType::Void), declared_input("SilentDissolve"@, FieldType::Void),
        declared_input("PreDissolveJoke"@, FieldType::Void),
        declared_input("DisablePortalFunnel"@, FieldType::Void),
        declared_input("EnablePortalFunnel"@, FieldType::Void),
        declared_input("ExitDisabledState"@, FieldType::Void), declared_input("SetPaint"@, FieldType::Int),
        declared_input("DisablePickup"@, FieldType::Void), declared_input("EnablePickup"@, FieldType::Void),
        declared_input("skin"@, FieldType::Int), declared_input("EnableMotion"@, FieldType::Void),
        declared_input("DisableMotion"@, FieldType::Void), declared_input("Wake"@, FieldType::Void),
        declared_input("Sleep"@, FieldType::Void),
    ]
}

pub fn weighted_cube_inputs() -> (r: Vec<InputDef>)
    ensures
        inputs(r@) == weighted_cube_inputs_spec(),
{
    let r = vec![
        InputDef::new("Dissolve", FieldType::Void), InputDef::new("SilentDissolve", FieldType::Void),
        InputDef::new("PreDissolveJoke", FieldType::Void),
        InputDef::new("DisablePortalFunnel", FieldType::Void),
        InputDef::new("EnablePortalFunnel", FieldType::Void),
        InputDef::new("ExitDisabledState", FieldType::Void), InputDef::new("SetPaint", FieldType::Int),
        InputDef::new("DisablePickup", FieldType::Void), InputDef::new("EnablePickup", FieldType::Void),
        InputDef::new("skin", FieldType::Int), InputDef::new("EnableMotion", FieldType::Void),
        InputDef::new("DisableMotion", FieldType::Void), InputDef::new("Wake", FieldType::Void),
        InputDef::new("Sleep", FieldType::Void),
    ];
    assert(inputs(r@) =~= weighted_cube_inputs_spec());
    r
}

pub open spec fn weighted_cube_outputs_spec() -> Seq<Seq<char>> {
    seq![
        "OnFizzled"@, "OnOrangePickUp"@, "OnBluePickUp"@, "OnPainted"@, "OnPlayerPickup"@, "OnPhysGunDrop"@,
    ]
}

pub fn weighted_cube_outputs() -> (r: Vec<&'static str>)
    ensures
        names(r@) == weighted_cube_outputs_spec(),
{
    let r = vec![
        "OnFizzled", "OnOrangePickUp", "OnBluePickUp", "OnPainted", "OnPlayerPickup", "OnPhysGunDrop",
    ];
    assert(names(r@) =~= weighted_cube_outputs_spec());
    r
}

pub open spec fn prop_portal_keys_spec() -> Seq<Seq<char>> {
    seq![
        "LinkageGroupID"@, "Activated"@, "OldActivated"@, "PortalTwo"@, "HalfWidth"@, "HalfHeight"@,
    ]
}

pub fn prop_portal_keys() -> (r: Vec<&'static str>)
    ensures
        names(r@) == prop_portal_keys_spec(),
{
    let r = vec![
        "LinkageGroupID", "Activated", "OldActivated", "PortalTwo", "HalfWidth", "HalfHeight",
    ];
    assert(names(r@) =~= prop_portal_keys_spec());
    r
}

pub open spec fn prop_portal_inputs_spec() -> Seq<InputDefView> {
    seq![
        declared_input("SetActivatedState"@, FieldType::Bool), declared_input("Fizzle"@, FieldType::Void),
        declared_input("NewLocation"@, FieldType::String), declared_input("Resize"@, FieldType::String),
        declared_input("SetLinkageGroupId"@, FieldType::Int),
    ]
}

pub fn prop_portal_inputs() -> (r: Vec<InputDef>)
    ensures
        inputs(r@) == prop_portal_inputs_spec(),
{
    let r = vec![
        InputDef::new("SetActivatedState", FieldType::Bool), InputDef::new("Fizzle", FieldType::Void),
        InputDef::new("NewLocation", FieldType::String), InputDef::new("Resize", FieldType::String),
        InputDef::new("SetLinkageGroupId", FieldType::Int),
    ];
    assert(inputs(r@) =~= prop_portal_inputs_spec());
    r
}

pub open spec fn prop_portal_outputs_spec() -> Seq<Seq<char>> {
    seq![
        "OnPlacedSuccessfully"@, "OnEntityTeleportFromMe"@, "OnPlayerTeleportFromMe"@,
        "OnEntityTeleportToMe"@, "OnPlayerTeleportToMe"@,
    ]
}

pub fn prop_portal_outputs() -> (r: Vec<&'static str>)
    ensures
        names(r@) == prop_portal_outputs_spec(),
{
    let r = vec![
        "OnPlacedSuccessfully", "OnEntityTeleportFromMe", "OnPlayerTeleportFromMe", "OnEntityTeleportToMe",
        "OnPlayerTeleportToMe",
    ];
    assert(names(r@) =~= prop_portal_outputs_spec());
    r
}

pub open spec fn world_keys_spec() -> Seq<Seq<char>> {
    seq![
        "skyname"@, "world_mins"@, "world_maxs"@, "maxpropscreenwidth"@, "maxblobcount"@, "detailmaterial"@,
    ]
}

pub fn world_keys() -> (r: Vec<&'static str>)
    ensures
        names(r@) == world_keys_spec(),
{
    let r = vec![
        "skyname", "world_mins", "world_maxs", "maxpropscreenwidth", "maxblobcount", "detailmaterial",
    ];
    assert(names(r@) =~= world_keys_spec());
    r
}

pub open spec fn declared_input(name: Seq<char>, field: FieldType) -> InputDefView {
    InputDefView { name, field }
}

/// The keys that a class reads.
pub open spec fn declared_keys(kind: ClassKind) -> Seq<Seq<char>> {
    match kind {
        ClassKind::Relay => relay_keys_spec(),
        ClassKind::DynamicProp => dynamic_prop_keys_spec(),
        ClassKind::Light => light_keys_spec(),
        ClassKind::EnvLight => env_light_keys_spec(),
        ClassKind::Brush => brush_keys_spec(),
        ClassKind::AreaPortal => area_portal_keys_spec(),
        ClassKind::InstanceIoProxy => Seq::empty(),
        ClassKind::RotatingDoor => door_keys_spec(),
        ClassKind::Door => door_keys_spec(),
        ClassKind::MoveLinear => move_linear_keys_spec(),
        ClassKind::Button => button_keys_spec(),
        ClassKind::Rotating => rotating_keys_spec(),
        ClassKind::Auto => auto_keys_spec(),
        ClassKind::Branch => branch_keys_spec(),
        ClassKind::BranchList => branch_list_keys_spec(),
        ClassKind::Timer => timer_keys_spec(),
        ClassKind::MathCounter => math_counter_keys_spec(),
        ClassKind::TonemapController => Seq::empty(),
        ClassKind::Case => case_keys_spec(),
        ClassKind::TriggerOnce => base_trigger_keys_spec(),
        ClassKind::TriggerMultiple => trigger_multiple_keys_spec(),
        ClassKind::TriggerHurt => trigger_hurt_keys_spec(),
        ClassKind::TriggerPush => trigger_push_keys_spec(),
        ClassKind::TriggerTeleport => trigger_teleport_keys_spec(),
        ClassKind::FilterClass => filter_class_keys_spec(),
        ClassKind::FilterName => filter_name_keys_spec(),
        ClassKind::FilterMulti => filter_multi_keys_spec(),
        ClassKind::FilterPlayerHeld => base_filter_keys_spec(),
        ClassKind::FilterDamageType => filter_damage_type_keys_spec(),
        ClassKind::FilterModel => filter_model_keys_spec(),
        ClassKind::PointTeleport => Seq::empty(),
        ClassKind::Player => Seq::empty(),
        ClassKind::LogicPlayerProxy => Seq::empty(),
        ClassKind::RevertSaved => revert_saved_keys_spec(),
        ClassKind::PointEntity => Seq::empty(),
        ClassKind::FloorButton => floor_button_keys_spec(),
        ClassKind::TestChamberDoor => test_chamber_door_keys_spec(),
        ClassKind::WeightedCube => weighted_cube_keys_spec(),
        ClassKind::PropPortal => prop_portal_keys_spec(),
        ClassKind::ButtonTrigger => base_trigger_keys_spec(),
        ClassKind::World => world_keys_spec(),
    }
}

/// The keys that a class reads.
pub fn keys_of(kind: ClassKind) -> (r: Vec<&'static str>)
    ensures
        names(r@) == declared_keys(kind),
{
    match kind {
        ClassKind::Relay => relay_keys(),
        ClassKind::DynamicProp => dynamic_prop_keys(),
        ClassKind::Light => light_keys(),
        ClassKind::EnvLight => env_light_keys(),
        ClassKind::Brush => brush_keys(),
        ClassKind::AreaPortal => area_portal_keys(),
        ClassKind::RotatingDoor => door_keys(),
        ClassKind::Door => door_keys(),
        ClassKind::MoveLinear => move_linear_keys(),
        ClassKind::Button => button_keys(),
        ClassKind::Rotating => rotating_keys(),
        ClassKind::Auto => auto_keys(),
        ClassKind::Branch => branch_keys(),
        ClassKind::BranchList => branch_list_keys(),
        ClassKind::Timer => timer_keys(),
        ClassKind::MathCounter => math_counter_keys(),
        ClassKind::Case => case_keys(),
        ClassKind::TriggerOnce => base_trigger_keys(),
        ClassKind::TriggerMultiple => trigger_multiple_keys(),
        ClassKind::TriggerHurt => trigger_hurt_keys(),
        ClassKind::TriggerPush => trigger_push_keys(),
        ClassKind::TriggerTeleport => trigger_teleport_keys(),
        ClassKind::FilterClass => filter_class_keys(),
        ClassKind::FilterName => filter_name_keys(),
        ClassKind::FilterMulti => filter_multi_keys(),
        ClassKind::FilterPlayerHeld => base_filter_keys(),
        ClassKind::FilterDamageType => filter_damage_type_keys(),
        ClassKind::FilterModel => filter_model_keys(),
        ClassKind::RevertSaved => revert_saved_keys(),
        ClassKind::FloorButton => floor_button_keys(),
        ClassKind::TestChamberDoor => test_chamber_door_keys(),
        ClassKind::WeightedCube => weighted_cube_keys(),
        ClassKind::PropPortal => prop_portal_keys(),
        ClassKind::ButtonTrigger => base_trigger_keys(),
        ClassKind::World => world_keys(),
        ClassKind::InstanceIoProxy | ClassKind::TonemapController | ClassKind::PointTeleport | ClassKind::Player | ClassKind::LogicPlayerProxy | ClassKind::PointEntity => {
            let r: Vec<&'static str> = Vec::new();
            assert(names(r@) =~= Seq::empty());
            r
        },
    }
}

/// The inputs that a class takes.
pub open spec fn declared_inputs(kind: ClassKind) -> Seq<InputDefView> {
    match kind {
        ClassKind::Relay => relay_inputs_spec(),
        ClassKind::DynamicProp => dynamic_prop_inputs_spec(),
        ClassKind::Light => light_inputs_spec(),
        ClassKind::EnvLight => light_inputs_spec(),
        ClassKind::Brush => brush_inputs_spec(),
        ClassKind::AreaPortal => area_portal_inputs_spec(),
        ClassKind::InstanceIoProxy => instance_io_proxy_inputs_spec(),
        ClassKind::RotatingDoor => door_inputs_spec(),
        ClassKind::Door => door_inputs_spec(),
        ClassKind::MoveLinear => move_linear_inputs_spec(),
        ClassKind::Button => button_inputs_spec(),
        ClassKind::Rotating => rotating_inputs_spec(),
        ClassKind::Auto => Seq::empty(),
        ClassKind::Branch => branch_inputs_spec(),
        ClassKind::BranchList => branch_list_inputs_spec(),
        ClassKind::Timer => timer_inputs_spec(),
        ClassKind::MathCounter => math_counter_inputs_spec(),
        ClassKind::TonemapController => tonemap_controller_inputs_spec(),
        ClassKind::Case => case_inputs_spec(),
        ClassKind::TriggerOnce => base_trigger_inputs_spec(),
        ClassKind::TriggerMultiple => base_trigger_inputs_spec(),
        ClassKind::TriggerHurt => trigger_hurt_inputs_spec(),
        ClassKind::TriggerPush => trigger_push_inputs_spec(),
        ClassKind::TriggerTeleport => trigger_teleport_inputs_spec(),
        ClassKind::FilterClass => filter_inputs_spec(),
        ClassKind::FilterName => filter_inputs_spec(),
        ClassKind::FilterMulti => filter_inputs_spec(),
        ClassKind::FilterPlayerHeld => filter_inputs_spec(),
        ClassKind::FilterDamageType => filter_inputs_spec(),
        ClassKind::FilterModel => filter_inputs_spec(),
        ClassKind::PointTeleport => point_teleport_inputs_spec(),
        ClassKind::Player => player_inputs_spec(),
        ClassKind::LogicPlayerProxy => Seq::empty(),
        ClassKind::RevertSaved => revert_saved_inputs_spec(),
        ClassKind::PointEntity => Seq::empty(),
        ClassKind::FloorButton => floor_button_inputs_spec(),
        ClassKind::TestChamberDoor => test_chamber_door_inputs_spec(),
        ClassKind::WeightedCube => weighted_cube_inputs_spec(),
        ClassKind::PropPortal => prop_portal_inputs_spec(),
        ClassKind::ButtonTrigger => base_trigger_inputs_spec(),
        ClassKind::World => Seq::empty(),
    }
}

/// The inputs that a class takes.
pub fn inputs_of(kind: ClassKind) -> (r: Vec<InputDef>)
    ensures
        inputs(r@) == declared_inputs(kind),
{
    match kind {
        ClassKind::Relay => relay_inputs(),
        ClassKind::DynamicProp => dynamic_prop_inputs(),
        ClassKind::Light => light_inputs(),
        ClassKind::EnvLight => light_inputs(),
        ClassKind::Brush => brush_inputs(),
        ClassKind::AreaPortal => area_portal_inputs(),
        ClassKind::InstanceIoProxy => instance_io_proxy_inputs(),
        ClassKind::RotatingDoor => door_inputs(),
        ClassKind::Door => door_inputs(),
        ClassKind::MoveLinear => move_linear_inputs(),
        ClassKind::Button => button_inputs(),
        ClassKind::Rotating => rotating_inputs(),
        ClassKind::Branch => branch_inputs(),
        ClassKind::BranchList => branch_list_inputs(),
        ClassKind::Timer => timer_inputs(),
        ClassKind::MathCounter => math_counter_inputs(),
        ClassKind::TonemapController => tonemap_controller_inputs(),
        ClassKind::Case => case_inputs(),
        ClassKind::TriggerOnce => base_trigger_inputs(),
        ClassKind::TriggerMultiple => base_trigger_inputs(),
        ClassKind::TriggerHurt => trigger_hurt_inputs(),
        ClassKind::TriggerPush => trigger_push_inputs(),
        ClassKind::TriggerTeleport => trigger_teleport_inputs(),
        ClassKind::FilterClass => filter_inputs(),
        ClassKind::FilterName => filter_inputs(),
        ClassKind::FilterMulti => filter_inputs(),
        ClassKind::FilterPlayerHeld => filter_inputs(),
        ClassKind::FilterDamageType => filter_inputs(),
        ClassKind::FilterModel => filter_inputs(),
        ClassKind::PointTeleport => point_teleport_inputs(),
        ClassKind::Player => player_inputs(),
        ClassKind::RevertSaved => revert_saved_inputs(),
        ClassKind::FloorButton => floor_button_inputs(),
        ClassKind::TestChamberDoor => test_chamber_door_inputs(),
        ClassKind::WeightedCube => weighted_cube_inputs(),
        ClassKind::PropPortal => prop_portal_inputs(),
        ClassKind::ButtonTrigger => base_trigger_inputs(),
        ClassKind::Auto | ClassKind::LogicPlayerProxy | ClassKind::PointEntity | ClassKind::World => {
            let r: Vec<InputDef> = Vec::new();
            assert(inputs(r@) =~= Seq::empty());
            r
        },
    }
}

/// The outputs that a class has.
pub open spec fn declared_outputs(kind: ClassKind) -> Seq<Seq<char>> {
    match kind {
        ClassKind::Relay => relay_outputs_spec(),
        ClassKind::DynamicProp => dynamic_prop_outputs_spec(),
        ClassKind::Light => Seq::empty(),
        ClassKind::EnvLight => Seq::empty(),
        ClassKind::Brush => Seq::empty(),
        ClassKind::AreaPortal => Seq::empty(),
        ClassKind::InstanceIoProxy => instance_io_proxy_outputs_spec(),
        ClassKind::RotatingDoor => door_outputs_spec(),
        ClassKind::Door => door_outputs_spec(),
        ClassKind::MoveLinear => move_linear_outputs_spec(),
        ClassKind::Button => button_outputs_spec(),
        ClassKind::Rotating => rotating_outputs_spec(),
        ClassKind::Auto => auto_outputs_spec(),
        ClassKind::Branch => branch_outputs_spec(),
        ClassKind::BranchList => branch_list_outputs_spec(),
        ClassKind::Timer => timer_outputs_spec(),
        ClassKind::MathCounter => math_counter_outputs_spec(),
        ClassKind::TonemapController => Seq::empty(),
        ClassKind::Case => case_outputs_spec(),
        ClassKind::TriggerOnce => trigger_multiple_outputs_spec(),
        ClassKind::TriggerMultiple => trigger_multiple_outputs_spec(),
        ClassKind::TriggerHurt => trigger_hurt_outputs_spec(),
        ClassKind::TriggerPush => base_trigger_outputs_spec(),
        ClassKind::TriggerTeleport => base_trigger_outputs_spec(),
        ClassKind::FilterClass => filter_outputs_spec(),
        ClassKind::FilterName => filter_outputs_spec(),
        ClassKind::FilterMulti => filter_outputs_spec(),
        ClassKind::FilterPlayerHeld => filter_outputs_spec(),
        ClassKind::FilterDamageType => filter_outputs_spec(),
        ClassKind::FilterModel => filter_outputs_spec(),
        ClassKind::PointTeleport => Seq::empty(),
        ClassKind::Player => Seq::empty(),
        ClassKind::LogicPlayerProxy => logic_player_proxy_outputs_spec(),
        ClassKind::RevertSaved => Seq::empty(),
        ClassKind::PointEntity => Seq::empty(),
        ClassKind::FloorButton => floor_button_outputs_spec(),
        ClassKind::TestChamberDoor => test_chamber_door_outputs_spec(),
        ClassKind::WeightedCube => weighted_cube_outputs_spec(),
        ClassKind::PropPortal => prop_portal_outputs_spec(),
        ClassKind::ButtonTrigger => base_trigger_outputs_spec(),
        ClassKind::World => Seq::empty(),
    }
}

/// The outputs that a class has.
pub fn outputs_of(kind: ClassKind) -> (r: Vec<&'static str>)
    ensures
        names(r@) == declared_outputs(kind),
{
    match kind {
        ClassKind::Relay => relay_outputs(),
        ClassKind::DynamicProp => dynamic_prop_outputs(),
        ClassKind::InstanceIoProxy => instance_io_proxy_outputs(),
        ClassKind::RotatingDoor => door_outputs(),
        ClassKind::Door => door_outputs(),
        ClassKind::MoveLinear => move_linear_outputs(),
        ClassKind::Button => button_outputs(),
        ClassKind::Rotating => rotating_outputs(),
        ClassKind::Auto => auto_outputs(),
        ClassKind::Branch => branch_outputs(),
        ClassKind::BranchList => branch_list_outputs(),
        ClassKind::Timer => timer_outputs(),
        ClassKind::MathCounter => math_counter_outputs(),
        ClassKind::Case => case_outputs(),
        ClassKind::TriggerOnce => trigger_multiple_outputs(),
        ClassKind::TriggerMultiple => trigger_multiple_outputs(),
        ClassKind::TriggerHurt => trigger_hurt_outputs(),
        ClassKind::TriggerPush => base_trigger_outputs(),
        ClassKind::TriggerTeleport => base_trigger_outputs(),
        ClassKind::FilterClass => filter_outputs(),
        ClassKind::FilterName => filter_outputs(),
        ClassKind::FilterMulti => filter_outputs(),
        ClassKind::FilterPlayerHeld => filter_outputs(),
        ClassKind::FilterDamageType => filter_outputs(),
        ClassKind::FilterModel => filter_outputs(),
        ClassKind::LogicPlayerProxy => logic_player_proxy_outputs(),
        ClassKind::FloorButton => floor_button_outputs(),
        ClassKind::TestChamberDoor => test_chamber_door_outputs(),
        ClassKind::WeightedCube => weighted_cube_outputs(),
        ClassKind::PropPortal => prop_portal_outputs(),
        ClassKind::ButtonTrigger => base_trigger_outputs(),
        ClassKind::Light | ClassKind::EnvLight | ClassKind::Brush | ClassKind::AreaPortal | ClassKind::TonemapController | ClassKind::PointTeleport | ClassKind::Player | ClassKind::RevertSaved | ClassKind::PointEntity | ClassKind::World => {
            let r: Vec<&'static str> = Vec::new();
            assert(names(r@) =~= Seq::empty());
            r
        },
    }
}

/// Every classname, and the class that it stands for.
pub open spec fn class_list() -> Seq<(Seq<char>, ClassKind)> {
    seq![
        ("logic_relay"@, ClassKind::Relay),
        ("prop_dynamic"@, ClassKind::DynamicProp),
        ("prop_dynamic_override"@, ClassKind::DynamicProp),
        ("dynamic_prop"@, ClassKind::DynamicProp),
        ("prop_dynamic_glow"@, ClassKind::DynamicProp),
        ("light"@, ClassKind::Light),
        ("light_spot"@, ClassKind::Light),
        ("light_directional"@, ClassKind::Light),
        ("light_glspot"@, ClassKind::Light),
        ("light_environment"@, ClassKind::EnvLight),
        ("func_brush"@, ClassKind::Brush),
        ("func_areaportal"@, ClassKind::AreaPortal),
        ("func_areaportalwindow"@, ClassKind::AreaPortal),
        ("func_instance_io_proxy"@, ClassKind::InstanceIoProxy),
        ("func_door_rotating"@, ClassKind::RotatingDoor),
        ("func_door"@, ClassKind::Door),
        ("func_movelinear"@, ClassKind::MoveLinear),
        ("func_button"@, ClassKind::Button),
        ("func_rotating"@, ClassKind::Rotating),
        ("logic_auto"@, ClassKind::Auto),
        ("logic_branch"@, ClassKind::Branch),
        ("logic_branch_listener"@, ClassKind::BranchList),
        ("logic_timer"@, ClassKind::Timer),
        ("math_counter"@, ClassKind::MathCounter),
        ("env_tonemap_controller"@, ClassKind::TonemapController),
        ("logic_case"@, ClassKind::Case),
        ("trigger_once"@, ClassKind::TriggerOnce),
        ("trigger_multiple"@, ClassKind::TriggerMultiple),
        ("trigger_hurt"@, ClassKind::TriggerHurt),
        ("trigger_push"@, ClassKind::TriggerPush),
        ("trigger_teleport"@, ClassKind::TriggerTeleport),
        ("filter_activator_class"@, ClassKind::FilterClass),
        ("filter_activator_name"@, ClassKind::FilterName),
        ("filter_multi"@, ClassKind::FilterMulti),
        ("filter_player_held"@, ClassKind::FilterPlayerHeld),
        ("filter_damage_type"@, ClassKind::FilterDamageType),
        ("filter_activator_model"@, ClassKind::FilterModel),
        ("point_teleport"@, ClassKind::PointTeleport),
        ("player"@, ClassKind::Player),
        ("logic_playerproxy"@, ClassKind::LogicPlayerProxy),
        ("player_loadsaved"@, ClassKind::RevertSaved),
        ("info_target"@, ClassKind::PointEntity),
        ("prop_floor_button"@, ClassKind::FloorButton),
        ("prop_testchamber_door"@, ClassKind::TestChamberDoor),
        ("prop_weighted_cube"@, ClassKind::WeightedCube),
        ("prop_portal"@, ClassKind::PropPortal),
        ("trigger_portal_button"@, ClassKind::ButtonTrigger),
        ("info_player_start"@, ClassKind::PointEntity),
        ("worldspawn"@, ClassKind::World),
    ]
}

/// A classname and its class, as mathematical ones.
pub open spec fn rows(list: Seq<(&'static str, ClassKind)>) -> Seq<(Seq<char>, ClassKind)> {
    list.map_values(|row: (&'static str, ClassKind)| (row.0@, row.1))
}

/// Every classname, and the class that it stands for.
pub fn class_rows() -> (r: Vec<(&'static str, ClassKind)>)
    ensures
        rows(r@) == class_list(),
{
    let r = vec![
        ("logic_relay", ClassKind::Relay),
        ("prop_dynamic", ClassKind::DynamicProp),
        ("prop_dynamic_override", ClassKind::DynamicProp),
        ("dynamic_prop", ClassKind::DynamicProp),
        ("prop_dynamic_glow", ClassKind::DynamicProp),
        ("light", ClassKind::Light),
        ("light_spot", ClassKind::Light),
        ("light_directional", ClassKind::Light),
        ("light_glspot", ClassKind::Light),
        ("light_environment", ClassKind::EnvLight),
        ("func_brush", ClassKind::Brush),
        ("func_areaportal", ClassKind::AreaPortal),
        ("func_areaportalwindow", ClassKind::AreaPortal),
        ("func_instance_io_proxy", ClassKind::InstanceIoProxy),
        ("func_door_rotating", ClassKind::RotatingDoor),
        ("func_door", ClassKind::Door),
        ("func_movelinear", ClassKind::MoveLinear),
        ("func_button", ClassKind::Button),
        ("func_rotating", ClassKind::Rotating),
        ("logic_auto", ClassKind::Auto),
        ("logic_branch", ClassKind::Branch),
        ("logic_branch_listener", ClassKind::BranchList),
        ("logic_timer", ClassKind::Timer),
        ("math_counter", ClassKind::MathCounter),
        ("env_tonemap_controller", ClassKind::TonemapController),
        ("logic_case", ClassKind::Case),
        ("trigger_once", ClassKind::TriggerOnce),
        ("trigger_multiple", ClassKind::TriggerMultiple),
        ("trigger_hurt", ClassKind::TriggerHurt),
        ("trigger_push", ClassKind::TriggerPush),
        ("trigger_teleport", ClassKind::TriggerTeleport),
        ("filter_activator_class", ClassKind::FilterClass),
        ("filter_activator_name", ClassKind::FilterName),
        ("filter_multi", ClassKind::FilterMulti),
        ("filter_player_held", ClassKind::FilterPlayerHeld),
        ("filter_damage_type", ClassKind::FilterDamageType),
        ("filter_activator_model", ClassKind::FilterModel),
        ("point_teleport", ClassKind::PointTeleport),
        ("player", ClassKind::Player),
        ("logic_playerproxy", ClassKind::LogicPlayerProxy),
        ("player_loadsaved", ClassKind::RevertSaved),
        ("info_target", ClassKind::PointEntity),
        ("prop_floor_button", ClassKind::FloorButton),
        ("prop_testchamber_door", ClassKind::TestChamberDoor),
        ("prop_weighted_cube", ClassKind::WeightedCube),
        ("prop_portal", ClassKind::PropPortal),
        ("trigger_portal_button", ClassKind::ButtonTrigger),
        ("info_player_start", ClassKind::PointEntity),
        ("worldspawn", ClassKind::World),
    ];
    assert(rows(r@) =~= class_list());
    r
}

} // verus!
