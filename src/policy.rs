//! The immutable intervention policy: which recovery commands to send, in
//! what order, with what timing, and how many attempts are allowed.
use vstd::prelude::*;
use crate::text::same_text;

verus! {

/// The command sent when a policy is built from an empty list.
pub const FALLBACK_COMMAND: &'static str = "继续";

/// Whitespace, which no key name holds.
pub open spec fn is_space_char(c: char) -> bool {
    c == ' ' || c == '\t' || c == '\n' || c == '\r'
}

/// A key with modifiers in the multiplexer's notation, such as `C-c`, `M-x`,
/// `S-Up`, `C-Space` or `C-M-c`: a modifier letter and `-`, then more, with
/// no whitespace.
pub open spec fn is_modified_key(t: Seq<char>) -> bool {
    &&& t.len() >= 3
    &&& (t[0] == 'C' || t[0] == 'M' || t[0] == 'S')
    &&& t[1] == '-'
    &&& forall|k: int| 0 <= k < t.len() ==> !is_space_char(#[trigger] t[k])
}

/// A function key, `F` and one or two digits.
pub open spec fn is_function_key(t: Seq<char>) -> bool {
    &&& (t.len() == 2 || t.len() == 3)
    &&& t[0] == 'F'
    &&& forall|k: int| 1 <= k < t.len() ==> 48 <= (#[trigger] t[k]) as u32 <= 57
}

/// A key the multiplexer knows by name.
pub open spec fn is_named_key(t: Seq<char>) -> bool {
    ||| t == "Enter"@
    ||| t == "Escape"@
    ||| t == "Tab"@
    ||| t == "BTab"@
    ||| t == "BSpace"@
    ||| t == "Space"@
    ||| t == "Up"@
    ||| t == "Down"@
    ||| t == "Left"@
    ||| t == "Right"@
    ||| t == "Home"@
    ||| t == "End"@
    ||| t == "PageUp"@
    ||| t == "PageDown"@
    ||| t == "PPage"@
    ||| t == "NPage"@
    ||| t == "IC"@
    ||| t == "DC"@
    ||| is_function_key(t)
}

/// A raw keystroke rather than text to type: a named key or a key with
/// modifiers.
pub open spec fn is_control_key(t: Seq<char>) -> bool {
    is_named_key(t) || is_modified_key(t)
}

/// A command that starts with `/` submits itself.
pub open spec fn is_slash_command(t: Seq<char>) -> bool {
    t.len() > 0 && t[0] == '/'
}

/// Whether a confirm keystroke must follow the command text.
pub open spec fn needs_confirm(t: Seq<char>) -> bool {
    !is_control_key(t) && !is_slash_command(t)
}

/// Delay before the next tick after a confirm keystroke: what remains of
/// `enter_delay` once `command_delay` has passed, never below zero.
pub open spec fn settle_delay(command_delay: u64, enter_delay: u64) -> u64 {
    if enter_delay >= command_delay {
        (enter_delay - command_delay) as u64
    } else {
        0
    }
}

/// Milliseconds in `secs` seconds, saturating at the largest `u64`.
pub open spec fn secs_to_ms(secs: u64) -> u64 {
    if secs * 1000 <= u64::MAX {
        (secs * 1000) as u64
    } else {
        u64::MAX
    }
}

/// One recovery command and whether a confirm keystroke follows it.
#[derive(Clone, Debug)]
pub struct InterventionCommand {
    pub keys: String,
    pub confirm: bool,
}

impl InterventionCommand {
    /// This command was classified from `text`.
    pub open spec fn is_from(self, text: Seq<char>) -> bool {
        self.keys@ == text && self.confirm == needs_confirm(text)
    }

    /// Classifies a command text once, so that the scheduler never inspects
    /// the text itself.
    pub fn from_text(text: &str) -> (r: InterventionCommand)
        ensures
            r.is_from(text@),
    {
        let len: usize = text.unicode_len();
        let slash = len > 0 && text.get_char(0) == '/';
        let confirm = !slash && !named_key(text) && !modified_key(text);
        InterventionCommand { keys: text.to_owned(), confirm }
    }
}

fn modified_key(t: &str) -> (r: bool)
    ensures
        r == is_modified_key(t@),
{
    let len: usize = t.unicode_len();
    if len < 3 {
        return false;
    }
    let first = t.get_char(0);
    if !((first == 'C' || first == 'M' || first == 'S') && t.get_char(1) == '-') {
        return false;
    }
    let mut k: usize = 0;
    while k < len
        invariant
            len == t@.len(),
            k <= len,
            forall|j: int| 0 <= j < k ==> !is_space_char(t@[j]),
        decreases len - k,
    {
        let c = t.get_char(k);
        if c == ' ' || c == '\t' || c == '\n' || c == '\r' {
            return false;
        }
        k = k + 1;
    }
    true
}

fn function_key(t: &str) -> (r: bool)
    ensures
        r == is_function_key(t@),
{
    let len: usize = t.unicode_len();
    if !(len == 2 || len == 3) || t.get_char(0) != 'F' {
        return false;
    }
    let mut k: usize = 1;
    while k < len
        invariant
            len == t@.len(),
            1 <= k <= len,
            forall|j: int| 1 <= j < k ==> 48 <= (#[trigger] t@[j]) as u32 <= 57,
        decreases len - k,
    {
        let c = t.get_char(k) as u32;
        if c < 48 || c > 57 {
            return false;
        }
        k = k + 1;
    }
    true
}

fn named_key(t: &str) -> (r: bool)
    ensures
        r == is_named_key(t@),
{
    same_text(t, "Enter") || same_text(t, "Escape") || same_text(t, "Tab") || same_text(t, "BTab")
        || same_text(t, "BSpace") || same_text(t, "Space") || same_text(t, "Up") || same_text(t, "Down")
        || same_text(t, "Left") || same_text(t, "Right") || same_text(t, "Home") || same_text(t, "End")
        || same_text(t, "PageUp") || same_text(t, "PageDown") || same_text(t, "PPage") || same_text(
        t,
        "NPage",
    ) || same_text(t, "IC") || same_text(t, "DC") || function_key(t)
}

/// What the monitor does for one intervention: send `keys`; when `confirm`
/// holds, wait `confirm_delay_ms`, send the confirm keystroke, then wait
/// `settle_ms` before the next tick.
#[derive(Clone, Debug)]
pub struct Intervention {
    pub keys: String,
    pub confirm: bool,
    pub confirm_delay_ms: u64,
    pub settle_ms: u64,
}

impl Intervention {
    /// This is the intervention for the command at `index` of `p`: a confirm
    /// keystroke follows `command_delay_ms` after the text when the command
    /// needs one, and the tick ends `enter_delay_ms` after the text.
    pub open spec fn plans(self, p: InterventionConfig, index: int) -> bool {
        &&& self.keys@ == p.commands@[index].keys@
        &&& self.confirm == p.commands@[index].confirm
        &&& self.confirm_delay_ms == (if self.confirm { p.command_delay_ms } else { 0 })
        &&& self.settle_ms == (if self.confirm {
            settle_delay(p.command_delay_ms, p.enter_delay_ms)
        } else {
            0
        })
    }
}

/// The intervention policy. Well formed when `commands` is not empty.
#[derive(Clone, Debug)]
pub struct InterventionConfig {
    pub commands: Vec<InterventionCommand>,
    pub command_delay_ms: u64,
    pub enter_delay_ms: u64,
    pub max_retry: usize,
    pub stuck_threshold_ms: u64,
    pub poll_interval_ms: u64,
}

/// The texts of a command list.
pub open spec fn texts(v: Seq<String>) -> Seq<Seq<char>> {
    v.map_values(|s: String| s@)
}

impl InterventionConfig {
    pub open spec fn wf(&self) -> bool {
        0 < self.commands@.len() <= usize::MAX
    }

    /// This policy holds the given settings, with each command text
    /// classified, and the fallback command in place of an empty list.
    pub open spec fn built_from(
        &self,
        commands: Seq<String>,
        command_delay_ms: u64,
        enter_delay_ms: u64,
        max_retry: usize,
        stuck_sec: u64,
        interval_sec: u64,
    ) -> bool {
        &&& commands.len() > 0 ==> self.commands@.len() == commands.len()
        &&& commands.len() > 0 ==> forall|i: int|
            0 <= i < commands.len() ==> (#[trigger] self.commands@[i]).is_from(commands[i]@)
        &&& commands.len() == 0 ==> self.commands@.len() == 1
        &&& commands.len() == 0 ==> self.commands@[0].is_from(FALLBACK_COMMAND@)
        &&& self.command_delay_ms == command_delay_ms
        &&& self.enter_delay_ms == enter_delay_ms
        &&& self.max_retry == max_retry
        &&& self.stuck_threshold_ms == secs_to_ms(stuck_sec)
        &&& self.poll_interval_ms == secs_to_ms(interval_sec)
    }

    /// Builds a policy from command texts, substituting the single fallback
    /// command for an empty list.
    pub fn new(
        commands: &Vec<String>,
        command_delay_ms: u64,
        enter_delay_ms: u64,
        max_retry: usize,
        stuck_sec: u64,
        interval_sec: u64,
    ) -> (r: InterventionConfig)
        ensures
            r.wf(),
            r.built_from(commands@, command_delay_ms, enter_delay_ms, max_retry, stuck_sec, interval_sec),
    {
        let mut list: Vec<InterventionCommand> = Vec::new();
        let mut i: usize = 0;
        while i < commands.len()
            invariant
                i <= commands@.len(),
                list@.len() == i,
                forall|k: int| 0 <= k < i ==> (#[trigger] list@[k]).is_from(commands@[k]@),
            decreases commands@.len() - i,
        {
            let c = InterventionCommand::from_text(commands[i].as_str());
            let ghost before = list@;
            list.push(c);
            assert(forall|k: int| 0 <= k < i ==> list@[k] == before[k]);
            i = i + 1;
        }
        if list.len() == 0 {
            list.push(InterventionCommand::from_text(FALLBACK_COMMAND));
        }
        InterventionConfig {
            commands: list,
            command_delay_ms,
            enter_delay_ms,
            max_retry,
            stuck_threshold_ms: secs_to_millis(stuck_sec),
            poll_interval_ms: secs_to_millis(interval_sec),
        }
    }

    /// The intervention for the command at `index`.
    pub fn plan(&self, index: usize) -> (r: Intervention)
        requires
            index < self.commands@.len(),
        ensures
            r.plans(*self, index as int),
    {
        let c = &self.commands[index];
        if c.confirm {
            let settle: u64 = if self.enter_delay_ms >= self.command_delay_ms {
                self.enter_delay_ms - self.command_delay_ms
            } else {
                0
            };
            Intervention {
                keys: c.keys.clone(),
                confirm: true,
                confirm_delay_ms: self.command_delay_ms,
                settle_ms: settle,
            }
        } else {
            Intervention { keys: c.keys.clone(), confirm: false, confirm_delay_ms: 0, settle_ms: 0 }
        }
    }
}

/// Milliseconds in `secs` seconds, saturating.
pub fn secs_to_millis(secs: u64) -> (r: u64)
    ensures
        r == secs_to_ms(secs),
{
    if secs <= u64::MAX / 1000 {
        secs * 1000
    } else {
        u64::MAX
    }
}

} // verus!
