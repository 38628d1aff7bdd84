//! The native shell's plugin: which native method each command invokes, and
//! how the shell's own commands answer.

use vstd::prelude::*;

verus! {

/// Asks the native side to enter full screen.
#[derive(Debug, Clone, Copy, PartialEq, Eq, Structural)]
pub struct FullScreenRequest {}

/// The native side's answer about full screen.
#[derive(Debug, Clone, Copy, PartialEq, Eq, Structural)]
pub struct FullScreenResponse {
    pub is_fullscreen: bool,
}

/// Asks the native side to share a link.
#[derive(Debug)]
pub struct ShareRequest {
    pub url: String,
}

/// The argument handed to a native method.
#[derive(Debug, Clone, Copy, PartialEq, Eq, Structural)]
pub enum PluginPayload {
    Empty,
    FullScreen(FullScreenRequest),
}

/// A call of the mobile plugin: the native method's name and its argument.
#[derive(Debug)]
pub struct MobileInvocation {
    pub method: String,
    pub payload: PluginPayload,
}

/// Where the shell runs. Only the mobile plugin implements full screen.
#[derive(Debug, Clone, Copy, PartialEq, Eq, Structural)]
pub enum Platform {
    Desktop,
    Mobile,
}

/// Access to the plugin's methods.
#[derive(Debug, Clone, Copy, PartialEq, Eq, Structural)]
pub struct Tvmate {
    pub platform: Platform,
}

impl Tvmate {
    /// Asks whether the app is in full screen: the native method
    /// `isFullscreen`, with no argument. Only the mobile plugin has it.
    pub fn is_fullscreen(&self) -> (r: MobileInvocation)
        requires
            self.platform == Platform::Mobile,
        ensures
            r.method@ == "isFullscreen"@,
            r.payload == PluginPayload::Empty,
    {
        MobileInvocation { method: String::from_str("isFullscreen"), payload: PluginPayload::Empty }
    }

    /// Leaves full screen: the native method `exitFullscreen`, with no
    /// argument. Only the mobile plugin has it.
    pub fn exit_fullscreen(&self) -> (r: MobileInvocation)
        requires
            self.platform == Platform::Mobile,
        ensures
            r.method@ == "exitFullscreen"@,
            r.payload == PluginPayload::Empty,
    {
        MobileInvocation { method: String::from_str("exitFullscreen"), payload: PluginPayload::Empty }
    }

    /// Enters full screen: the native method `fullscreen`, with the request
    /// as its argument. Only the mobile plugin has it.
    pub fn fullscreen(&self, payload: FullScreenRequest) -> (r: MobileInvocation)
        requires
            self.platform == Platform::Mobile,
        ensures
            r.method@ == "fullscreen"@,
            r.payload == PluginPayload::FullScreen(payload),
    {
        MobileInvocation { method: String::from_str("fullscreen"), payload: PluginPayload::FullScreen(payload) }
    }
}

/// Reaches the plugin's methods from what holds the shell's managed state.
pub trait TvmateExt {
    fn tvmate(&self) -> &Tvmate;
}

/// The state the shell manages for the plugin once it is set up.
#[derive(Debug, Clone, Copy, PartialEq, Eq, Structural)]
pub struct PluginState {
    pub tvmate: Tvmate,
}

impl TvmateExt for PluginState {
    /// The plugin put under management at setup.
    fn tvmate(&self) -> (r: &Tvmate)
        ensures
            *r == self.tvmate,
    {
        &self.tvmate
    }
}

/// Sets the plugin up on `platform` and puts it under management.
pub fn setup(platform: Platform) -> (r: PluginState)
    ensures
        r.tvmate.platform == platform,
{
    PluginState { tvmate: Tvmate { platform } }
}

/// What the plugin registers with the shell: its name and the commands the
/// web view may call.
#[derive(Debug)]
pub struct PluginDescriptor {
    pub name: String,
    pub commands: Vec<String>,
}

/// The plugin `tvmate`, offering the commands `fullscreen` and `share_url`.
pub fn init() -> (r: PluginDescriptor)
    ensures
        r.name@ == "tvmate"@,
        r.commands@.len() == 2,
        r.commands@[0]@ == "fullscreen"@,
        r.commands@[1]@ == "share_url"@,
{
    let mut commands: Vec<String> = Vec::new();
    commands.push(String::from_str("fullscreen"));
    commands.push(String::from_str("share_url"));
    PluginDescriptor { name: String::from_str("tvmate"), commands }
}

/// The greeting the shell's `greet` command answers.
pub fn greet(name: &str) -> (r: String)
    ensures
        r@ == "Hello, "@ + name@ + "! You've been greeted from Rust!"@,
{
    let mut r = String::from_str("Hello, ");
    r.append(name);
    r.append("! You've been greeted from Rust!");
    r
}

/// The shell's `is_fullscreen` command: the plugin's answer, or `false`
/// when the plugin failed.
pub fn is_fullscreen<E>(result: Result<FullScreenResponse, E>) -> (r: bool)
    ensures
        r == (match result {
            Ok(resp) => resp.is_fullscreen,
            Err(_) => false,
        }),
{
    match result {
        Ok(resp) => resp.is_fullscreen,
        Err(_) => false,
    }
}

} // verus!
