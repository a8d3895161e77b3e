//! Gadget configuration actions, the fixed sequences that set the gadget up
//! and tear it down, and the run that performs a sequence in order.
use vstd::prelude::*;
use vstd::slice::slice_to_vec;
use vstd::string::StringSliceAdditionalSpecFns;
use crate::report::{gadget_report_descriptor, report_descriptor};
use crate::run::{Progress, RunState, fresh, pending, after, drive, lemma_run_stops_at_first_failure};

verus! {

/// One step of gadget setup or teardown.
#[derive(Debug)]
pub enum ConfigAction {
    /// Create the directory at the path.
    CreatePath(String),
    /// Write the bytes to the file at the path, creating or truncating it.
    WriteBytes(String, Vec<u8>),
    /// Remove the directory or link at the path.
    RemovePath(String),
    /// Create a symbolic link: `Symlink(target, link)`.
    Symlink(String, String),
}

/// What a `ConfigAction` holds, as plain sequences.
pub enum ActionSpec {
    CreatePath(Seq<char>),
    WriteBytes(Seq<char>, Seq<u8>),
    RemovePath(Seq<char>),
    Symlink(Seq<char>, Seq<char>),
}

impl View for ConfigAction {
    type V = ActionSpec;

    open spec fn view(&self) -> ActionSpec {
        match self {
            ConfigAction::CreatePath(p) => ActionSpec::CreatePath(p@),
            ConfigAction::WriteBytes(p, b) => ActionSpec::WriteBytes(p@, b@),
            ConfigAction::RemovePath(p) => ActionSpec::RemovePath(p@),
            ConfigAction::Symlink(t, l) => ActionSpec::Symlink(t@, l@),
        }
    }
}

/// Why a configuration step failed.
#[derive(Debug)]
pub enum CommandError {
    /// The step could not be started; holds the cause.
    NotExecuted(String),
    /// The step ran and failed; holds what was run and its exit status.
    CommandFailed(String, i32),
}

/// What performing one action came to.
#[derive(Debug)]
pub enum Outcome {
    /// The action took effect.
    Completed,
    /// The action could not be started; holds the cause.
    NotLaunched(String),
    /// The action ran and ended with this exit status (0 is success).
    Exited(i32),
    /// Opening or writing the target file failed; holds the cause.
    WriteFailed(String),
}

impl CommandError {
    /// A failure of something that is not itself a command, reported with
    /// exit status 1.
    pub fn failure(msg: String) -> (r: CommandError)
        ensures
            r matches CommandError::CommandFailed(m, 1) && m@ == msg@,
    {
        CommandError::CommandFailed(msg, 1)
    }
}

/// The decimal digit `d`, as text.
pub open spec fn digit_spec(d: nat) -> Seq<char> {
    if d == 0 {
        "0"@
    } else if d == 1 {
        "1"@
    } else if d == 2 {
        "2"@
    } else if d == 3 {
        "3"@
    } else if d == 4 {
        "4"@
    } else if d == 5 {
        "5"@
    } else if d == 6 {
        "6"@
    } else if d == 7 {
        "7"@
    } else if d == 8 {
        "8"@
    } else {
        "9"@
    }
}

/// `n` written in decimal, without leading zeros.
pub open spec fn decimal_spec(n: nat) -> Seq<char>
    decreases n,
{
    if n < 10 {
        digit_spec(n)
    } else {
        decimal_spec(n / 10) + digit_spec(n % 10)
    }
}

/// `n` written in decimal, with a leading `-` when negative.
pub open spec fn signed_decimal_spec(n: int) -> Seq<char> {
    if n < 0 {
        "-"@ + decimal_spec((-n) as nat)
    } else {
        decimal_spec(n as nat)
    }
}

/// The text of an error, as shown to a caller.
pub open spec fn message_spec(e: CommandError) -> Seq<char> {
    match e {
        CommandError::NotExecuted(c) => "could not exec command: "@ + c@,
        CommandError::CommandFailed(what, s) => what@ + " -- command failed with exit status "@
            + signed_decimal_spec(s as int),
    }
}

fn digit(d: u32) -> (r: &'static str)
    requires
        d < 10,
    ensures
        r@ == digit_spec(d as nat),
{
    match d {
        0 => "0",
        1 => "1",
        2 => "2",
        3 => "3",
        4 => "4",
        5 => "5",
        6 => "6",
        7 => "7",
        8 => "8",
        _ => "9",
    }
}

/// Appends `n` in decimal to `s`.
fn append_decimal(s: &mut String, n: u32)
    ensures
        final(s)@ == old(s)@ + decimal_spec(n as nat),
    decreases n,
{
    if n >= 10 {
        append_decimal(s, n / 10);
    }
    s.append(digit(n % 10));
    assert(final(s)@ =~= old(s)@ + decimal_spec(n as nat));
}

impl CommandError {
    /// A short description of the kind of error.
    pub fn description(&self) -> (r: &'static str)
        ensures
            r@ == (if self is NotExecuted {
                "Could not exec command"@
            } else {
                "Command returned failed status"@
            }),
    {
        match self {
            CommandError::NotExecuted(_) => "Could not exec command",
            CommandError::CommandFailed(..) => "Command returned failed status",
        }
    }

    /// The text of the error, as shown to a caller.
    pub fn message(&self) -> (r: String)
        ensures
            r@ == message_spec(*self),
    {
        match self {
            CommandError::NotExecuted(c) => String::from_str("could not exec command: ").concat(
                c.as_str(),
            ),
            CommandError::CommandFailed(what, status) => {
                let mut s = what.clone().concat(" -- command failed with exit status ");
                if *status < 0 {
                    s.append("-");
                    let magnitude: u32 = if *status == i32::MIN {
                        2147483648u32
                    } else {
                        (-*status) as u32
                    };
                    append_decimal(&mut s, magnitude);
                } else {
                    append_decimal(&mut s, *status as u32);
                }
                s
            },
        }
    }
}

/// The text that names an action in an error.
pub open spec fn describe_spec(a: ActionSpec) -> Seq<char> {
    match a {
        ActionSpec::CreatePath(p) => "create "@ + p,
        ActionSpec::WriteBytes(p, _) => "write "@ + p,
        ActionSpec::RemovePath(p) => "remove "@ + p,
        ActionSpec::Symlink(t, l) => "link "@ + l + " -> "@ + t,
    }
}

/// The text that names `a` in an error.
pub fn describe(a: &ConfigAction) -> (r: String)
    ensures
        r@ == describe_spec(a@),
{
    match a {
        ConfigAction::CreatePath(p) => String::from_str("create ").concat(p.as_str()),
        ConfigAction::WriteBytes(p, _) => String::from_str("write ").concat(p.as_str()),
        ConfigAction::RemovePath(p) => String::from_str("remove ").concat(p.as_str()),
        ConfigAction::Symlink(t, l) => {
            String::from_str("link ").concat(l.as_str()).concat(" -> ").concat(t.as_str())
        },
    }
}

/// Whether an outcome means the action took effect.
pub open spec fn outcome_ok(o: Outcome) -> bool {
    match o {
        Outcome::Completed => true,
        Outcome::Exited(s) => s == 0,
        _ => false,
    }
}

/// `e` is the error that reports action `a` ending in the failed outcome `o`.
pub open spec fn error_for(a: ActionSpec, o: Outcome, e: CommandError) -> bool {
    match o {
        Outcome::NotLaunched(m) => e matches CommandError::NotExecuted(c) && c@ == m@,
        Outcome::Exited(s) => e matches CommandError::CommandFailed(c, t) && c@ == describe_spec(
            a,
        ) && t == s,
        Outcome::WriteFailed(m) => e matches CommandError::CommandFailed(c, t) && c@
            == describe_spec(a) + " -- "@ + m@ && t == 1,
        Outcome::Completed => false,
    }
}

/// The error that reports action `a` ending in outcome `o`, or `None` when
/// the action took effect.
pub fn outcome_error(a: &ConfigAction, o: Outcome) -> (r: Option<CommandError>)
    ensures
        r is None <==> outcome_ok(o),
        r matches Some(e) ==> error_for(a@, o, e),
{
    match o {
        Outcome::Completed => None,
        Outcome::NotLaunched(m) => Some(CommandError::NotExecuted(m)),
        Outcome::Exited(s) => {
            if s == 0 {
                None
            } else {
                Some(CommandError::CommandFailed(describe(a), s))
            }
        },
        Outcome::WriteFailed(m) => {
            let msg = describe(a).concat(" -- ").concat(m.as_str());
            Some(CommandError::failure(msg))
        },
    }
}

/// Root of the gadget's configuration tree.
pub open spec fn gadget_root() -> Seq<char> {
    "/config/usb_gadget/kb"@
}

/// The file the report descriptor is written to.
pub open spec fn descriptor_file() -> Seq<char> {
    "/config/usb_gadget/kb/functions/hid.usb0/report_desc"@
}

/// The character device that carries input reports once the gadget is bound.
pub open spec fn device_file() -> Seq<char> {
    "/dev/hidg0"@
}

/// The actions run before the report descriptor is written: identifiers,
/// the configuration and function directories, and the HID attributes.
pub open spec fn pre_descriptor_plan() -> Seq<ActionSpec> {
    seq![
        ActionSpec::CreatePath("/config/usb_gadget/kb"@),
        ActionSpec::WriteBytes("/config/usb_gadget/kb/idVendor"@, "0x1234".spec_bytes()),
        ActionSpec::WriteBytes("/config/usb_gadget/kb/idProduct"@, "0x5678".spec_bytes()),
        ActionSpec::WriteBytes("/config/usb_gadget/kb/bcdDevice"@, "0x0100".spec_bytes()),
        ActionSpec::WriteBytes("/config/usb_gadget/kb/bcdUSB"@, "0x0110".spec_bytes()),
        ActionSpec::CreatePath("/config/usb_gadget/kb/configs/c.1"@),
        ActionSpec::CreatePath("/config/usb_gadget/kb/functions/hid.usb0"@),
        ActionSpec::WriteBytes("/config/usb_gadget/kb/functions/hid.usb0/subclass"@, "1".spec_bytes()),
        ActionSpec::WriteBytes("/config/usb_gadget/kb/functions/hid.usb0/protocol"@, "1".spec_bytes()),
        ActionSpec::WriteBytes(
            "/config/usb_gadget/kb/functions/hid.usb0/report_length"@,
            "8".spec_bytes(),
        ),
    ]
}

/// The actions run after the report descriptor is written: link the HID
/// function into the configuration, then bind the gadget to the controller.
pub open spec fn post_descriptor_plan() -> Seq<ActionSpec> {
    seq![
        ActionSpec::Symlink(
            "/config/usb_gadget/kb/functions/hid.usb0"@,
            "/config/usb_gadget/kb/configs/c.1/hid.usb0"@,
        ),
        ActionSpec::WriteBytes("/config/usb_gadget/kb/UDC"@, "musb-hdrc.0.auto".spec_bytes()),
    ]
}

/// The actions that tear the gadget down: the link, then the function.
pub open spec fn deinit_plan() -> Seq<ActionSpec> {
    seq![
        ActionSpec::RemovePath("/config/usb_gadget/kb/configs/c.1/hid.usb0"@),
        ActionSpec::RemovePath("/config/usb_gadget/kb/functions/hid.usb0"@),
    ]
}

/// The views of a list of actions.
pub open spec fn plan_of(v: Seq<ConfigAction>) -> Seq<ActionSpec> {
    v.map_values(|a: ConfigAction| a@)
}

fn create(path: &str) -> (r: ConfigAction)
    ensures
        r@ == ActionSpec::CreatePath(path@),
{
    ConfigAction::CreatePath(String::from_str(path))
}

fn write(path: &str, content: &str) -> (r: ConfigAction)
    ensures
        r@ == ActionSpec::WriteBytes(path@, content.spec_bytes()),
{
    ConfigAction::WriteBytes(String::from_str(path), slice_to_vec(content.as_bytes()))
}

fn remove(path: &str) -> (r: ConfigAction)
    ensures
        r@ == ActionSpec::RemovePath(path@),
{
    ConfigAction::RemovePath(String::from_str(path))
}

/// The path of the report descriptor file.
pub fn descriptor_path() -> (r: String)
    ensures
        r@ == descriptor_file(),
{
    String::from_str("/config/usb_gadget/kb/functions/hid.usb0/report_desc")
}

/// The path of the gadget's character device.
pub fn device_path() -> (r: String)
    ensures
        r@ == device_file(),
{
    String::from_str("/dev/hidg0")
}

/// The actions that set the gadget up before its descriptor is written.
pub fn pre_descriptor_actions() -> (r: Vec<ConfigAction>)
    ensures
        plan_of(r@) == pre_descriptor_plan(),
{
    let mut v: Vec<ConfigAction> = Vec::new();
    v.push(create("/config/usb_gadget/kb"));
    v.push(write("/config/usb_gadget/kb/idVendor", "0x1234"));
    v.push(write("/config/usb_gadget/kb/idProduct", "0x5678"));
    v.push(write("/config/usb_gadget/kb/bcdDevice", "0x0100"));
    v.push(write("/config/usb_gadget/kb/bcdUSB", "0x0110"));
    v.push(create("/config/usb_gadget/kb/configs/c.1"));
    v.push(create("/config/usb_gadget/kb/functions/hid.usb0"));
    v.push(write("/config/usb_gadget/kb/functions/hid.usb0/subclass", "1"));
    v.push(write("/config/usb_gadget/kb/functions/hid.usb0/protocol", "1"));
    v.push(write("/config/usb_gadget/kb/functions/hid.usb0/report_length", "8"));
    assert(plan_of(v@) =~= pre_descriptor_plan());
    v
}

/// The actions that finish the setup once the descriptor is written.
pub fn post_descriptor_actions() -> (r: Vec<ConfigAction>)
    ensures
        plan_of(r@) == post_descriptor_plan(),
{
    let mut v: Vec<ConfigAction> = Vec::new();
    v.push(
        ConfigAction::Symlink(
            String::from_str("/config/usb_gadget/kb/functions/hid.usb0"),
            String::from_str("/config/usb_gadget/kb/configs/c.1/hid.usb0"),
        ),
    );
    v.push(write("/config/usb_gadget/kb/UDC", "musb-hdrc.0.auto"));
    assert(plan_of(v@) =~= post_descriptor_plan());
    v
}

/// The actions that tear the gadget down.
pub fn deinit_actions() -> (r: Vec<ConfigAction>)
    ensures
        plan_of(r@) == deinit_plan(),
{
    let mut v: Vec<ConfigAction> = Vec::new();
    v.push(remove("/config/usb_gadget/kb/configs/c.1/hid.usb0"));
    v.push(remove("/config/usb_gadget/kb/functions/hid.usb0"));
    assert(plan_of(v@) =~= deinit_plan());
    v
}

/// The whole setup, in order: the actions before the descriptor, writing
/// the report descriptor, then the actions after it.
pub open spec fn init_plan() -> Seq<ActionSpec> {
    pre_descriptor_plan() + seq![ActionSpec::WriteBytes(descriptor_file(), report_descriptor())]
        + post_descriptor_plan()
}

/// The actions that bring the gadget up, up to the point where its device
/// can be opened.
pub fn init_actions() -> (r: Vec<ConfigAction>)
    ensures
        plan_of(r@) == init_plan(),
{
    let mut v = pre_descriptor_actions();
    v.push(ConfigAction::WriteBytes(descriptor_path(), gadget_report_descriptor()));
    let mut post = post_descriptor_actions();
    v.append(&mut post);
    assert(plan_of(v@) =~= init_plan());
    v
}

/// A sequence of actions performed in order, stopping at the first failure.
pub struct CommandRun {
    actions: Vec<ConfigAction>,
    progress: Progress,
    error: Option<CommandError>,
}

impl CommandRun {
    /// The actions of the run.
    pub closed spec fn actions(&self) -> Seq<ConfigAction> {
        self.actions@
    }

    /// How far the run has come.
    pub closed spec fn state(&self) -> RunState {
        self.progress@
    }

    /// The error of the failed action, once one failed.
    pub closed spec fn error(&self) -> Option<CommandError> {
        self.error
    }

    /// Internal consistency: one step per action, and an error held
    /// exactly when an action failed.
    pub closed spec fn wf(&self) -> bool {
        &&& self.progress.wf()
        &&& self.progress@.total == self.actions@.len()
        &&& (self.error is Some <==> self.progress@.failed)
    }

    /// A run of `actions`, none performed yet.
    pub fn new(actions: Vec<ConfigAction>) -> (r: CommandRun)
        ensures
            r.wf(),
            r.actions() == actions@,
            r.state() == fresh(actions@.len()),
    {
        let n = actions.len();
        CommandRun { actions, progress: Progress::new(n), error: None }
    }

    /// The action to perform next, if one is owed.
    pub fn next_action(&self) -> (r: Option<&ConfigAction>)
        requires
            self.wf(),
        ensures
            r is Some <==> pending(self.state()),
            r matches Some(a) ==> *a == self.actions()[self.state().attempted as int],
    {
        match self.progress.next_index() {
            Some(i) => Some(&self.actions[i]),
            None => None,
        }
    }

    /// Records the outcome of the action that was owed; a failed outcome
    /// ends the run with the error that names that action.
    pub fn record(&mut self, outcome: Outcome)
        requires
            old(self).wf(),
            pending(old(self).state()),
        ensures
            final(self).wf(),
            final(self).actions() == old(self).actions(),
            final(self).state() == after(old(self).state(), outcome_ok(outcome)),
            final(self).error() matches Some(e) ==> error_for(
                old(self).actions()[old(self).state().attempted as int]@,
                outcome,
                e,
            ),
    {
        let i = self.progress.attempted();
        let err = outcome_error(&self.actions[i], outcome);
        let ok = err.is_none();
        self.progress.record(ok);
        self.error = err;
    }

    /// The result of a run that has ended: `Ok` when every action took
    /// effect, else the error of the action that failed.
    pub fn finish(self) -> (r: Result<(), CommandError>)
        requires
            self.wf(),
            !pending(self.state()),
        ensures
            r is Ok <==> self.state().attempted == self.state().total && !self.state().failed,
            r matches Err(e) ==> self.error() == Some(e),
    {
        match self.error {
            None => Ok(()),
            Some(e) => Err(e),
        }
    }
}

/// A sequence of actions stops at its first failing action: when action `k`
/// fails and every earlier one takes effect, exactly actions `0..=k` are
/// performed, and the ones after `k` never are.
pub proof fn lemma_actions_stop_at_failure(outcomes: Seq<Outcome>, k: nat)
    requires
        k < outcomes.len(),
        !outcome_ok(outcomes[k as int]),
        forall|j: int| 0 <= j < k ==> outcome_ok(#[trigger] outcomes[j]),
    ensures
        drive(fresh(outcomes.len()), outcomes.map_values(|o: Outcome| outcome_ok(o))) == (RunState {
            total: outcomes.len(),
            attempted: k + 1,
            failed: true,
        }),
{
    let results = outcomes.map_values(|o: Outcome| outcome_ok(o));
    assert forall|j: int| 0 <= j < k implies #[trigger] results[j] by {
        assert(outcome_ok(outcomes[j]));
    }
    lemma_run_stops_at_first_failure(results, k);
}

} // verus!
