//! The plugin's life as a state machine. The host starts the plugin, the
//! plugin runs a one-time setup that looks a few things up in the game, and
//! the host later calls the plugin's menu entries. Every step here decides
//! which host functions to call, in order; the caller makes those calls and,
//! where the last call answers with an address, hands that address back.

use vstd::prelude::*;
use vstd::string::*;

use crate::text::{
    hex_value, lemma_class_messages_hold_name, lemma_image_message_reads_back,
    lemma_method_address_reads_back, class_found_message, class_found_text, class_missing_message, class_missing_text,
    image_message, image_message_text, method_address_message, method_address_text,
};
use crate::InitResult;

verus! {

/// One call of a host function, with its arguments. Addresses are carried as
/// plain numbers; 0 is the null pointer.
#[derive(Clone, Debug, PartialEq, Eq)]
pub enum HostCall {
    /// Look up a loaded assembly by name; answers with its image.
    GetAssemblyImage { name: String },
    /// Look up a class of an image; answers with the class, or null.
    GetClass { image: u64, namespace: String, class_name: String },
    /// Look up the code address of a method of a class; answers with it, or null.
    GetMethodAddr { class: u64, method: String, arg_count: i32 },
    /// Append a message to the plugin's own log file.
    AppendLog { message: String },
    /// Write a message to the host's log.
    Log { level: i32, target: String, message: String },
    /// Add an entry to the host's plugin menu that calls the plugin when clicked.
    RegisterMenuItem { label: String },
    /// Add a section to the host's plugin menu that the plugin draws.
    RegisterMenuSection,
    /// Show a notification to the player.
    ShowNotification { message: String },
    /// Draw a heading in the menu section being drawn.
    UiHeading { text: String },
    /// Draw a separator in the menu section being drawn.
    UiSeparator,
    /// Draw a label in the menu section being drawn.
    UiLabel { text: String },
}

/// A host call with its strings taken by their characters.
pub enum CallView {
    GetAssemblyImage { name: Seq<char> },
    GetClass { image: u64, namespace: Seq<char>, class_name: Seq<char> },
    GetMethodAddr { class: u64, method: Seq<char>, arg_count: i32 },
    AppendLog { message: Seq<char> },
    Log { level: i32, target: Seq<char>, message: Seq<char> },
    RegisterMenuItem { label: Seq<char> },
    RegisterMenuSection,
    ShowNotification { message: Seq<char> },
    UiHeading { text: Seq<char> },
    UiSeparator,
    UiLabel { text: Seq<char> },
}

impl View for HostCall {
    type V = CallView;

    open spec fn view(&self) -> CallView {
        match self {
            HostCall::GetAssemblyImage { name } => CallView::GetAssemblyImage { name: name@ },
            HostCall::GetClass { image, namespace, class_name } => CallView::GetClass {
                image: *image,
                namespace: namespace@,
                class_name: class_name@,
            },
            HostCall::GetMethodAddr { class, method, arg_count } => CallView::GetMethodAddr {
                class: *class,
                method: method@,
                arg_count: *arg_count,
            },
            HostCall::AppendLog { message } => CallView::AppendLog { message: message@ },
            HostCall::Log { level, target, message } => CallView::Log {
                level: *level,
                target: target@,
                message: message@,
            },
            HostCall::RegisterMenuItem { label } => CallView::RegisterMenuItem { label: label@ },
            HostCall::RegisterMenuSection => CallView::RegisterMenuSection,
            HostCall::ShowNotification { message } => CallView::ShowNotification {
                message: message@,
            },
            HostCall::UiHeading { text } => CallView::UiHeading { text: text@ },
            HostCall::UiSeparator => CallView::UiSeparator,
            HostCall::UiLabel { text } => CallView::UiLabel { text: text@ },
        }
    }
}

/// The host calls of a list, each taken by its view.
pub open spec fn calls_view(calls: Seq<HostCall>) -> Seq<CallView> {
    calls.map_values(|c: HostCall| c@)
}

/// A call whose answer (an address) the plugin needs before it can go on.
pub open spec fn is_query(c: CallView) -> bool {
    c is GetAssemblyImage || c is GetClass || c is GetMethodAddr
}

/// How far the one-time setup has come.
#[derive(Clone, Copy, Debug, PartialEq, Eq, Structural)]
pub enum SetupPhase {
    /// The plugin has not yet been started successfully.
    NotStarted,
    /// The image of the game's assembly has been asked for.
    AwaitingImage,
    /// The probed class has been asked for.
    AwaitingClass,
    /// The code address of the probed method has been asked for.
    AwaitingMethodAddr,
    /// The setup is over and the menu entries are registered.
    Finished,
}

impl SetupPhase {
    /// Whether the setup waits for the answer to a host call.
    pub open spec fn awaits_answer(self) -> bool {
        self is AwaitingImage || self is AwaitingClass || self is AwaitingMethodAddr
    }

    /// Whether the setup waits for the answer to a host call.
    pub fn is_awaiting_answer(&self) -> (b: bool)
        ensures
            b == self.awaits_answer(),
    {
        match self {
            SetupPhase::AwaitingImage | SetupPhase::AwaitingClass | SetupPhase::AwaitingMethodAddr => true,
            _ => false,
        }
    }

    /// How many answers the setup can still wait for.
    pub open spec fn answers_left(self) -> nat {
        match self {
            SetupPhase::NotStarted => 3,
            SetupPhase::AwaitingImage => 3,
            SetupPhase::AwaitingClass => 2,
            SetupPhase::AwaitingMethodAddr => 1,
            SetupPhase::Finished => 0,
        }
    }
}

/// The plugin's state: whether the host's function table is installed, the
/// host API version that came with it, and the phase of the one-time setup.
#[derive(Clone, Copy, Debug, PartialEq, Eq, Structural)]
pub struct Plugin {
    pub vtable_installed: bool,
    pub api_version: i32,
    pub phase: SetupPhase,
}

/// The oldest host API version that the plugin works with.
pub const MIN_API_VERSION: i32 = 2;

/// The level of informational messages in the host's log.
pub const INFO_LEVEL: i32 = 3;

/// Whether the host's start request is accepted: the host gave a function
/// table and speaks API version 2 or later.
pub open spec fn accepts(vtable_present: bool, version: i32) -> bool {
    vtable_present && version >= MIN_API_VERSION
}

/// The calls that register the plugin's menu entries.
pub open spec fn menu_registration() -> Seq<CallView> {
    seq![CallView::RegisterMenuItem { label: "Example Plugin"@ }, CallView::RegisterMenuSection]
}

impl Plugin {
    /// Well-formed: the setup has started only with the function table
    /// installed, and an installed table came with a supported API version.
    pub open spec fn wf(self) -> bool {
        &&& !(self.phase is NotStarted) ==> self.vtable_installed
        &&& self.vtable_installed ==> self.api_version >= MIN_API_VERSION
    }

    /// The state after a start request.
    pub open spec fn init_next(self, vtable_present: bool, version: i32) -> Plugin {
        if accepts(vtable_present, version) {
            Plugin {
                vtable_installed: true,
                api_version: version,
                phase: if self.phase is NotStarted {
                    SetupPhase::AwaitingImage
                } else {
                    self.phase
                },
            }
        } else {
            self
        }
    }

    /// The calls made on a start request: the first one starts the setup by
    /// asking for the game's assembly image; later ones call nothing.
    pub open spec fn init_calls(self, vtable_present: bool, version: i32) -> Seq<CallView> {
        if accepts(vtable_present, version) && self.phase is NotStarted {
            seq![CallView::GetAssemblyImage { name: "umamusume"@ }]
        } else {
            seq![]
        }
    }

    /// The state after the answer to the setup's pending host call.
    pub open spec fn resume_next(self, answer: u64) -> Plugin {
        Plugin {
            phase: match self.phase {
                SetupPhase::AwaitingImage => SetupPhase::AwaitingClass,
                SetupPhase::AwaitingClass => if answer == 0 {
                    SetupPhase::Finished
                } else {
                    SetupPhase::AwaitingMethodAddr
                },
                SetupPhase::AwaitingMethodAddr => SetupPhase::Finished,
                _ => self.phase,
            },
            ..self
        }
    }

    /// The calls made on the answer to the setup's pending host call.
    pub open spec fn resume_calls(self, answer: u64) -> Seq<CallView> {
        match self.phase {
            SetupPhase::AwaitingImage => seq![
                CallView::AppendLog { message: image_message_text(answer) },
                CallView::GetClass {
                    image: answer,
                    namespace: "Gallop"@,
                    class_name: "SingleModeMainViewHpGauge"@,
                },
            ],
            SetupPhase::AwaitingClass => if answer == 0 {
                seq![CallView::AppendLog {
                    message: class_missing_text("SingleModeMainViewHpGauge"@),
                }] + menu_registration()
            } else {
                seq![
                    CallView::AppendLog { message: class_found_text("SingleModeMainViewHpGauge"@) },
                    CallView::GetMethodAddr { class: answer, method: "get_Hp"@, arg_count: 0 },
                ]
            },
            SetupPhase::AwaitingMethodAddr => seq![
                CallView::AppendLog { message: method_address_text(answer) },
            ] + menu_registration(),
            _ => seq![],
        }
    }

    /// The calls made when the player clicks the plugin's menu entry.
    pub open spec fn menu_click_calls(self) -> Seq<CallView> {
        if self.vtable_installed {
            seq![CallView::ShowNotification { message: "Hello from the example plugin!"@ }]
        } else {
            seq![]
        }
    }

    /// The calls made when the host draws the plugin's menu section.
    pub open spec fn menu_section_calls(self) -> Seq<CallView> {
        if self.vtable_installed {
            seq![
                CallView::UiHeading { text: "Example Plugin"@ },
                CallView::UiSeparator,
                CallView::UiLabel { text: "This section is rendered by the plugin."@ },
            ]
        } else {
            seq![]
        }
    }

    /// A plugin that the host has not started yet.
    pub fn new() -> (p: Plugin)
        ensures
            p.wf(),
            !p.vtable_installed,
            p.api_version == 0,
            p.phase is NotStarted,
    {
        Plugin { vtable_installed: false, api_version: 0, phase: SetupPhase::NotStarted }
    }

    /// Whether the host's function table is installed.
    pub fn vtable_installed(&self) -> (b: bool)
        ensures
            b == self.vtable_installed,
    {
        self.vtable_installed
    }

    /// The host API version recorded at the last accepted start request.
    pub fn api_version(&self) -> (v: i32)
        ensures
            v == self.api_version,
    {
        self.api_version
    }

    /// Handles the host's start request. It is refused (`Error`, nothing
    /// changes, nothing is called) when there is no function table or the
    /// API version is older than 2. Otherwise the table is installed, the
    /// version recorded, and the first accepted request starts the one-time
    /// setup; the answer is `Success`.
    pub fn init(&mut self, vtable_present: bool, version: i32) -> (r: (InitResult, Vec<HostCall>))
        ensures
            r.0 == (if accepts(vtable_present, version) {
                InitResult::Success
            } else {
                InitResult::Error
            }),
            (r.0 is Success) <==> (vtable_present && version >= 2),
            vtable_present && version >= 2 ==> final(self).vtable_installed && final(self).api_version == version,
            *final(self) == old(self).init_next(vtable_present, version),
            calls_view(r.1@) == old(self).init_calls(vtable_present, version),
            r.1@.len() == old(self).init_calls(vtable_present, version).len(),
    {
        let mut calls: Vec<HostCall> = Vec::new();
        if !vtable_present || version < MIN_API_VERSION {
            assert(calls_view(calls@) =~= seq![]);
            return (InitResult::Error, calls);
        }
        self.vtable_installed = true;
        self.api_version = version;
        if self.phase == SetupPhase::NotStarted {
            self.phase = SetupPhase::AwaitingImage;
            calls.push(HostCall::GetAssemblyImage { name: String::from_str("umamusume") });
        }
        assert(calls_view(calls@) =~= old(self).init_calls(vtable_present, version));
        (InitResult::Success, calls)
    }

    /// Handles the answer to the setup's pending host call: logs what was
    /// found, asks for the next thing to look up, and at the end registers
    /// the menu entries. With no call pending nothing changes.
    pub fn resume(&mut self, answer: u64) -> (calls: Vec<HostCall>)
        ensures
            *final(self) == old(self).resume_next(answer),
            calls_view(calls@) == old(self).resume_calls(answer),
            calls@.len() == old(self).resume_calls(answer).len(),
            old(self).phase is AwaitingImage ==> calls@.len() == 2 && calls@[1]@ == (CallView::GetClass {
                image: answer,
                namespace: "Gallop"@,
                class_name: "SingleModeMainViewHpGauge"@,
            }),
            old(self).phase is AwaitingClass && answer != 0 ==> calls@.len() == 2 && calls@[1]@ == (CallView::GetMethodAddr {
                class: answer,
                method: "get_Hp"@,
                arg_count: 0,
            }),
    {
        let mut calls: Vec<HostCall> = Vec::new();
        match self.phase {
            SetupPhase::AwaitingImage => {
                calls.push(HostCall::AppendLog { message: image_message(answer) });
                calls.push(
                    HostCall::GetClass {
                        image: answer,
                        namespace: String::from_str("Gallop"),
                        class_name: String::from_str("SingleModeMainViewHpGauge"),
                    },
                );
                self.phase = SetupPhase::AwaitingClass;
            },
            SetupPhase::AwaitingClass => {
                if answer == 0 {
                    calls.push(
                        HostCall::AppendLog {
                            message: class_missing_message("SingleModeMainViewHpGauge"),
                        },
                    );
                    push_menu_registration(&mut calls);
                    self.phase = SetupPhase::Finished;
                } else {
                    calls.push(
                        HostCall::AppendLog {
                            message: class_found_message("SingleModeMainViewHpGauge"),
                        },
                    );
                    calls.push(
                        HostCall::GetMethodAddr {
                            class: answer,
                            method: String::from_str("get_Hp"),
                            arg_count: 0,
                        },
                    );
                    self.phase = SetupPhase::AwaitingMethodAddr;
                }
            },
            SetupPhase::AwaitingMethodAddr => {
                calls.push(HostCall::AppendLog { message: method_address_message(answer) });
                push_menu_registration(&mut calls);
                self.phase = SetupPhase::Finished;
            },
            _ => {},
        }
        assert(calls_view(calls@) =~= old(self).resume_calls(answer));
        calls
    }

    /// The calls made when the player clicks the plugin's menu entry: a
    /// greeting notification, once the function table is installed.
    pub fn menu_click(&self) -> (calls: Vec<HostCall>)
        ensures
            calls_view(calls@) == self.menu_click_calls(),
            calls@.len() == self.menu_click_calls().len(),
            calls@.len() == (if self.vtable_installed { 1int } else { 0int }),
    {
        let mut calls: Vec<HostCall> = Vec::new();
        if self.vtable_installed {
            calls.push(
                HostCall::ShowNotification {
                    message: String::from_str("Hello from the example plugin!"),
                },
            );
        }
        assert(calls_view(calls@) =~= self.menu_click_calls());
        calls
    }

    /// The calls made when the host draws the plugin's menu section: a
    /// heading, a separator and a label, once the function table is installed.
    pub fn menu_section(&self) -> (calls: Vec<HostCall>)
        ensures
            calls_view(calls@) == self.menu_section_calls(),
            calls@.len() == self.menu_section_calls().len(),
            calls@.len() == (if self.vtable_installed { 3int } else { 0int }),
    {
        let mut calls: Vec<HostCall> = Vec::new();
        if self.vtable_installed {
            calls.push(HostCall::UiHeading { text: String::from_str("Example Plugin") });
            calls.push(HostCall::UiSeparator);
            calls.push(
                HostCall::UiLabel { text: String::from_str("This section is rendered by the plugin.") },
            );
        }
        assert(calls_view(calls@) =~= self.menu_section_calls());
        calls
    }
}

/// The call that writes `message` to the host's log at `level`, under `tag`.
pub fn log_call(level: i32, tag: &str, message: &str) -> (c: HostCall)
    ensures
        c@ == (CallView::Log { level, target: tag@, message: message@ }),
{
    HostCall::Log { level, target: String::from_str(tag), message: String::from_str(message) }
}

/// The call that writes an informational `message` to the host's log under `tag`.
pub fn log_info_call(tag: &str, message: &str) -> (c: HostCall)
    ensures
        c@ == (CallView::Log { level: INFO_LEVEL, target: tag@, message: message@ }),
{
    log_call(INFO_LEVEL, tag, message)
}

/// One step of walking the methods of a class: the host answers each request
/// with the next method, or with null when there are no more; the walk yields
/// the method, and ends at null.
pub fn next_method(method: u64) -> (r: Option<u64>)
    ensures
        r == (if method == 0 {
            None
        } else {
            Some(method)
        }),
{
    if method == 0 {
        None
    } else {
        Some(method)
    }
}

/// Whether a list of calls ends in a call whose answer the plugin awaits.
pub open spec fn ends_in_query(calls: Seq<CallView>) -> bool {
    calls.len() > 0 && is_query(calls.last())
}

/// Whether no call but the last one of a list awaits an answer.
pub open spec fn queries_only_last(calls: Seq<CallView>) -> bool {
    forall|i: int| 0 <= i < calls.len() - 1 ==> !is_query(#[trigger] calls[i])
}

/// Every step keeps the plugin well-formed: the setup never runs without the
/// host's function table, and an installed table always came with API
/// version 2 or later.
pub proof fn lemma_steps_keep_wf(p: Plugin, vtable_present: bool, version: i32, answer: u64)
    requires
        p.wf(),
    ensures
        p.init_next(vtable_present, version).wf(),
        p.resume_next(answer).wf(),
{
}

/// A refused start request changes nothing and calls nothing.
pub proof fn lemma_refused_init_is_inert(p: Plugin, vtable_present: bool, version: i32)
    requires
        !accepts(vtable_present, version),
    ensures
        p.init_next(vtable_present, version) == p,
        p.init_calls(vtable_present, version) == Seq::<CallView>::empty(),
{
}

/// The one-time setup starts at most once: once it has started, no step
/// brings it back to its start, and a later start request, accepted or not,
/// calls nothing and leaves the setup where it is.
pub proof fn lemma_setup_starts_once(p: Plugin, vtable_present: bool, version: i32, answer: u64)
    requires
        !(p.phase is NotStarted),
    ensures
        p.init_calls(vtable_present, version) == Seq::<CallView>::empty(),
        p.init_next(vtable_present, version).phase == p.phase,
        !(p.resume_next(answer).phase is NotStarted),
{
}

/// The setup always comes to an end: each answer it awaits moves it closer
/// to its end, so it awaits at most three answers; with no answer awaited, an
/// answer changes nothing and calls nothing.
pub proof fn lemma_setup_progress(p: Plugin, answer: u64)
    ensures
        p.phase.awaits_answer() ==> p.resume_next(answer).phase.answers_left()
            < p.phase.answers_left(),
        !p.phase.awaits_answer() ==> p.resume_next(answer) == p && p.resume_calls(answer)
            == Seq::<CallView>::empty(),
        p.phase.answers_left() <= 3,
{
}

/// The caller's protocol: the calls of a step end in one that awaits an
/// answer exactly when the step moved the setup to a phase that awaits one,
/// and no other call of the step awaits an answer.
pub proof fn lemma_pending_call_comes_last(p: Plugin, vtable_present: bool, version: i32, answer: u64)
    ensures
        ends_in_query(p.init_calls(vtable_present, version)) <==> ({
            let q = p.init_next(vtable_present, version);
            q.phase.awaits_answer() && q.phase != p.phase
        }),
        queries_only_last(p.init_calls(vtable_present, version)),
        ends_in_query(p.resume_calls(answer)) <==> ({
            let q = p.resume_next(answer);
            q.phase.awaits_answer() && q.phase != p.phase
        }),
        queries_only_last(p.resume_calls(answer)),
{
    let c = p.resume_calls(answer);
    assert(queries_only_last(c)) by {
        assert forall|i: int| 0 <= i < c.len() - 1 implies !is_query(#[trigger] c[i]) by {
            if p.phase is AwaitingClass && answer == 0 {
                assert(c[i] == (seq![CallView::AppendLog {
                    message: class_missing_text("SingleModeMainViewHpGauge"@),
                }] + menu_registration())[i]);
            } else if p.phase is AwaitingMethodAddr {
                assert(c[i] == (seq![CallView::AppendLog {
                    message: method_address_text(answer),
                }] + menu_registration())[i]);
            }
        }
    }
}

/// The menu entries are registered exactly when the setup comes to its end,
/// so at most once in the plugin's life.
pub proof fn lemma_menu_registered_at_end(p: Plugin, vtable_present: bool, version: i32, answer: u64)
    ensures
        p.resume_calls(answer).contains(CallView::RegisterMenuSection) <==> (
        p.resume_next(answer).phase is Finished && !(p.phase is Finished)),
        p.resume_next(answer).phase is Finished && !(p.phase is Finished) ==> p.resume_calls(
            answer,
        ).skip(p.resume_calls(answer).len() - 2) == menu_registration(),
        !p.init_calls(vtable_present, version).contains(CallView::RegisterMenuSection),
        p.init_next(vtable_present, version).phase is Finished ==> p.phase is Finished,
{
    let c = p.resume_calls(answer);
    if p.resume_next(answer).phase is Finished && !(p.phase is Finished) {
        assert(c[c.len() - 1] == CallView::RegisterMenuSection);
        assert(c.skip(c.len() - 2) =~= menu_registration());
    }
    if c.contains(CallView::RegisterMenuSection) {
        let i = choose|i: int| 0 <= i < c.len() && c[i] == CallView::RegisterMenuSection;
        assert(c[i] == CallView::RegisterMenuSection);
    }
    let d = p.init_calls(vtable_present, version);
    if d.contains(CallView::RegisterMenuSection) {
        let i = choose|i: int| 0 <= i < d.len() && d[i] == CallView::RegisterMenuSection;
        assert(d[i] == CallView::RegisterMenuSection);
    }
}

/// Which start requests are accepted, and what an accepted one does: exactly
/// those with a function table and an API version of 2 or more are accepted;
/// they install the table and record the version, and the first of them asks
/// for the game's assembly image.
pub proof fn lemma_init_accepts_supported_hosts(p: Plugin, vtable_present: bool, version: i32)
    ensures
        accepts(vtable_present, version) <==> (vtable_present && version >= 2),
        vtable_present && version >= 2 ==> {
            let q = p.init_next(vtable_present, version);
            &&& q.vtable_installed
            &&& q.api_version == version
        },
        !(vtable_present && version >= 2) ==> p.init_next(vtable_present, version) == p,
        vtable_present && version >= 2 && p.phase is NotStarted ==> {
            &&& p.init_calls(vtable_present, version) == seq![
                CallView::GetAssemblyImage { name: "umamusume"@ },
            ]
            &&& p.init_next(vtable_present, version).phase is AwaitingImage
        },
{
}

/// The setup's lookups use exactly the addresses the host answered with: the
/// class is looked up in the image that was returned, the method in the class
/// that was returned, and each address is logged in full (its digits read back
/// as the address).
pub proof fn lemma_setup_uses_answers(p: Plugin, answer: u64)
    ensures
        p.phase is AwaitingImage ==> {
            let c = p.resume_calls(answer);
            &&& c.len() == 2
            &&& c[1] == (CallView::GetClass {
                image: answer,
                namespace: "Gallop"@,
                class_name: "SingleModeMainViewHpGauge"@,
            })
            &&& c[0] matches CallView::AppendLog { message } && message.take(11) == "img ptr: 0x"@
                && hex_value(message.skip(11)) == answer
        },
        p.phase is AwaitingClass && answer != 0 ==> {
            let c = p.resume_calls(answer);
            &&& c.len() == 2
            &&& c[1] == (CallView::GetMethodAddr { class: answer, method: "get_Hp"@, arg_count: 0 })
            &&& c[0] matches CallView::AppendLog { message } && message.take(17)
                == "[+] FOUND CLASS: "@ && message.skip(17) == "SingleModeMainViewHpGauge"@
            &&& p.resume_next(answer).phase is AwaitingMethodAddr
        },
        p.phase is AwaitingClass && answer == 0 ==> {
            let c = p.resume_calls(answer);
            &&& c.len() == 3
            &&& c[0] matches CallView::AppendLog { message } && message.take(4) == "[-] "@
                && message.skip(4) == "SingleModeMainViewHpGauge"@
            &&& c[1] == (CallView::RegisterMenuItem { label: "Example Plugin"@ })
            &&& c[2] == CallView::RegisterMenuSection
            &&& p.resume_next(answer).phase is Finished
        },
        p.phase is AwaitingMethodAddr ==> {
            let c = p.resume_calls(answer);
            &&& c.len() == 3
            &&& c[0] matches CallView::AppendLog { message } && message.take(9) == "Please 0x"@
                && hex_value(message.skip(9)) == answer
            &&& c[1] == (CallView::RegisterMenuItem { label: "Example Plugin"@ })
            &&& c[2] == CallView::RegisterMenuSection
            &&& p.resume_next(answer).phase is Finished
        },
        p.resume_next(answer).vtable_installed == p.vtable_installed,
        p.resume_next(answer).api_version == p.api_version,
{
    lemma_image_message_reads_back(answer);
    lemma_method_address_reads_back(answer);
    lemma_class_messages_hold_name("SingleModeMainViewHpGauge"@);
}

/// A click on the menu entry depends only on whether the function table is
/// installed, not on how far the setup has come: with the table it shows the
/// greeting, without it nothing.
pub proof fn lemma_menu_click_greets(p: Plugin, q: Plugin)
    ensures
        p.vtable_installed ==> p.menu_click_calls() == seq![
            CallView::ShowNotification { message: "Hello from the example plugin!"@ },
        ],
        !p.vtable_installed ==> p.menu_click_calls() == Seq::<CallView>::empty(),
        p.vtable_installed == q.vtable_installed ==> p.menu_click_calls() == q.menu_click_calls(),
{
}

/// Drawing the menu section depends only on whether the function table is
/// installed, not on how far the setup has come: with the table it draws a
/// heading, a separator and a label, without it nothing.
pub proof fn lemma_menu_section_draws(p: Plugin, q: Plugin)
    ensures
        p.vtable_installed ==> p.menu_section_calls() == seq![
            CallView::UiHeading { text: "Example Plugin"@ },
            CallView::UiSeparator,
            CallView::UiLabel { text: "This section is rendered by the plugin."@ },
        ],
        !p.vtable_installed ==> p.menu_section_calls() == Seq::<CallView>::empty(),
        p.vtable_installed == q.vtable_installed ==> p.menu_section_calls()
            == q.menu_section_calls(),
{
}

/// Appends the calls that register the plugin's menu entries.
fn push_menu_registration(calls: &mut Vec<HostCall>)
    ensures
        calls_view(final(calls)@) == calls_view(old(calls)@) + menu_registration(),
{
    calls.push(HostCall::RegisterMenuItem { label: String::from_str("Example Plugin") });
    calls.push(HostCall::RegisterMenuSection);
    assert(calls_view(calls@) =~= calls_view(old(calls)@) + menu_registration());
}

} // verus!
