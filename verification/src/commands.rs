//! Command registry, matching and dispatch.
//!
//! A submitted line is trimmed of leading whitespace and matched against a
//! fixed registry in registration order; the first match wins. A name
//! matches iff it is a prefix of the input and the input either ends there
//! or continues with a space, so a name never matches as a prefix of a
//! longer token. The rest of the line, trimmed again, is the argument.
//!
//! The built-in commands either write to the display (help, echo, clear,
//! the unknown-command diagnostic) or ask the caller for a hardware action
//! (reboot, shutdown), which this library only ever reports as a value.

use vstd::prelude::*;

use crate::vga::{blank_grid, spec_print, Display, DisplayView};

verus! {

/// Whitespace for the purposes of input normalization: space or tab.
pub open spec fn is_ws(b: u8) -> bool {
    b == 32 || b == 9
}

/// The input without its leading whitespace.
pub open spec fn spec_trim_start(s: Seq<u8>) -> Seq<u8>
    decreases s.len(),
{
    if s.len() > 0 && is_ws(s[0]) {
        spec_trim_start(s.skip(1))
    } else {
        s
    }
}

/// The number of leading whitespace bytes: what `spec_trim_start` drops.
pub fn trim_start_idx(s: &[u8]) -> (i: usize)
    ensures
        i <= s@.len(),
        spec_trim_start(s@) == s@.skip(i as int),
{
    let mut i: usize = 0;
    proof {
        assert(s@.skip(0) =~= s@);
    }
    while i < s.len() && (s[i] == 32 || s[i] == 9)
        invariant
            i <= s@.len(),
            spec_trim_start(s@) == spec_trim_start(s@.skip(i as int)),
        decreases s@.len() - i,
    {
        proof {
            assert(s@.skip(i as int)[0] == s@[i as int]);
            assert(s@.skip(i as int).skip(1) =~= s@.skip(i + 1));
        }
        i += 1;
    }
    i
}

/// Whether `name` matches the (already trimmed) input: the input starts
/// with `name` and either ends there or continues with a space.
pub open spec fn spec_cmd_match(input: Seq<u8>, name: Seq<u8>) -> bool {
    &&& input.len() >= name.len()
    &&& input.take(name.len() as int) == name
    &&& (input.len() == name.len() || input[name.len() as int] == 32)
}

/// Decides `spec_cmd_match`: byte-for-byte prefix comparison, then the
/// end-or-space check.
pub fn cmd_match(input: &[u8], name: &[u8]) -> (r: bool)
    ensures
        r == spec_cmd_match(input@, name@),
{
    if input.len() < name.len() {
        return false;
    }
    let mut i: usize = 0;
    while i < name.len()
        invariant
            i <= name@.len() <= input@.len(),
            forall|j: int| 0 <= j < i ==> input@[j] == name@[j],
        decreases name@.len() - i,
    {
        if input[i] != name[i] {
            proof {
                assert(input@[i as int] != name@[i as int]);
            }
            return false;
        }
        i += 1;
    }
    proof {
        assert(input@.take(name@.len() as int) =~= name@);
    }
    input.len() == name.len() || input[name.len()] == 32
}

/// What a built-in command does: its side effect, seen from the library.
#[derive(Clone, Copy, PartialEq, Eq, Structural, Debug)]
pub enum CmdKind {
    /// Print one name/description line per registered command.
    Help,
    /// Clear the display.
    Clear,
    /// Ask the caller to issue a hardware reset.
    Reboot,
    /// Ask the caller to issue a power-off signal.
    Shutdown,
    /// Print the argument followed by a line break.
    Echo,
}

/// A hardware action the caller must perform; the library never performs
/// one itself. Reset and power-off are terminal: they do not return
/// control to the shell.
#[derive(Clone, Copy, PartialEq, Eq, Structural, Debug)]
pub enum HwAction {
    /// No hardware action.
    Nothing,
    /// Write the reset command byte to the keyboard controller.
    Reboot,
    /// Write the power-off value to the shutdown port.
    Shutdown,
}

/// Mathematical model of one registry entry.
pub ghost struct CommandSpec {
    pub name: Seq<u8>,
    pub desc: Seq<u8>,
    pub kind: CmdKind,
}

/// One registry entry: a name, a one-line description, and the command's
/// effect.
pub struct Command {
    pub name: Vec<u8>,
    pub desc: Vec<u8>,
    pub kind: CmdKind,
}

impl View for Command {
    type V = CommandSpec;

    open spec fn view(&self) -> CommandSpec {
        CommandSpec { name: self.name@, desc: self.desc@, kind: self.kind }
    }
}

/// The registry, in registration order.
pub open spec fn spec_registry() -> Seq<CommandSpec> {
    seq![
        CommandSpec { name: name_help(), desc: desc_help(), kind: CmdKind::Help },
        CommandSpec { name: name_clear(), desc: desc_clear(), kind: CmdKind::Clear },
        CommandSpec { name: name_cls(), desc: desc_cls(), kind: CmdKind::Clear },
        CommandSpec { name: name_reboot(), desc: desc_reboot(), kind: CmdKind::Reboot },
        CommandSpec { name: name_shutdown(), desc: desc_shutdown(), kind: CmdKind::Shutdown },
        CommandSpec { name: name_echo(), desc: desc_echo(), kind: CmdKind::Echo },
    ]
}

/// Builds the registry.
pub fn commands() -> (v: Vec<Command>)
    ensures
        v@.len() == spec_registry().len(),
        forall|i: int| 0 <= i < v@.len() ==> #[trigger] v@[i]@ == spec_registry()[i],
{
    let mut v: Vec<Command> = Vec::new();
    v.push(Command { name: build_name_help(), desc: build_desc_help(), kind: CmdKind::Help });
    v.push(Command { name: build_name_clear(), desc: build_desc_clear(), kind: CmdKind::Clear });
    v.push(Command { name: build_name_cls(), desc: build_desc_cls(), kind: CmdKind::Clear });
    v.push(Command { name: build_name_reboot(), desc: build_desc_reboot(), kind: CmdKind::Reboot });
    v.push(
        Command { name: build_name_shutdown(), desc: build_desc_shutdown(), kind: CmdKind::Shutdown },
    );
    v.push(Command { name: build_name_echo(), desc: build_desc_echo(), kind: CmdKind::Echo });
    v
}

/// The first registry entry that matches the trimmed input, in
/// registration order.
pub open spec fn spec_find(cs: Seq<CommandSpec>, input: Seq<u8>) -> Option<CommandSpec>
    decreases cs.len(),
{
    if cs.len() == 0 {
        None
    } else if spec_cmd_match(input, cs[0].name) {
        Some(cs[0])
    } else {
        spec_find(cs.skip(1), input)
    }
}

/// The help line of one registry entry: name, separator, description,
/// line break.
pub open spec fn spec_help_line(c: CommandSpec) -> Seq<u8> {
    c.name + sep_text() + c.desc + newline_text()
}

/// The help lines of a run of registry entries, in order.
pub open spec fn spec_help_text(cs: Seq<CommandSpec>) -> Seq<u8>
    decreases cs.len(),
{
    if cs.len() == 0 {
        Seq::empty()
    } else {
        spec_help_text(cs.drop_last()) + spec_help_line(cs.last())
    }
}

/// Prints one name/description line per registered command.
pub fn cmd_help(disp: &mut Display, _arg: &[u8])
    requires
        old(disp).wf(),
    ensures
        final(disp).wf(),
        final(disp)@ == spec_print(old(disp)@, spec_help_text(spec_registry())),
{
    let registry = commands();
    let mut i: usize = 0;
    proof {
        assert(spec_help_text(spec_registry().take(0)) =~= Seq::<u8>::empty());
        assert(spec_print(old(disp)@, Seq::<u8>::empty()) == old(disp)@);
    }
    while i < registry.len()
        invariant
            i <= registry@.len(),
            registry@.len() == spec_registry().len(),
            forall|j: int| 0 <= j < registry@.len() ==> #[trigger] registry@[j]@ == spec_registry()[j],
            disp.wf(),
            disp@ == spec_print(old(disp)@, spec_help_text(spec_registry().take(i as int))),
        decreases registry@.len() - i,
    {
        let ghost pre = disp@;
        let ghost c = spec_registry()[i as int];
        proof {
            assert(registry@[i as int]@ == c);
            assert(registry@[i as int].name@ == c.name);
            assert(registry@[i as int].desc@ == c.desc);
        }
        let sep = build_sep_text();
        let nl = build_newline_text();
        disp.print(registry[i].name.as_slice());
        disp.print(sep.as_slice());
        disp.print(registry[i].desc.as_slice());
        disp.print(nl.as_slice());
        proof {
            crate::vga::lemma_print_append(pre, c.name, sep_text());
            crate::vga::lemma_print_append(pre, c.name + sep_text(), c.desc);
            crate::vga::lemma_print_append(pre, c.name + sep_text() + c.desc, newline_text());
            assert(disp@ == spec_print(pre, spec_help_line(c)));
            assert(spec_registry().take(i + 1).drop_last() =~= spec_registry().take(i as int));
            assert(spec_registry().take(i + 1).last() == c);
            crate::vga::lemma_print_append(
                old(disp)@,
                spec_help_text(spec_registry().take(i as int)),
                spec_help_line(c),
            );
        }
        i += 1;
    }
    proof {
        assert(spec_registry().take(spec_registry().len() as int) =~= spec_registry());
    }
}

/// Clears the display.
pub fn cmd_clear(disp: &mut Display, _arg: &[u8])
    requires
        old(disp).wf(),
    ensures
        final(disp).wf(),
        final(disp)@.grid == blank_grid(),
        final(disp)@.x == 0,
        final(disp)@.y == 0,
{
    disp.clear();
}

/// Asks the caller to issue a hardware reset.
pub fn cmd_reboot(_arg: &[u8]) -> (act: HwAction)
    ensures
        act == HwAction::Reboot,
{
    HwAction::Reboot
}

/// Asks the caller to issue the power-off signal.
pub fn cmd_shutdown(_arg: &[u8]) -> (act: HwAction)
    ensures
        act == HwAction::Shutdown,
{
    HwAction::Shutdown
}

/// Prints the argument followed by a line break.
pub fn cmd_echo(disp: &mut Display, arg: &[u8])
    requires
        old(disp).wf(),
    ensures
        final(disp).wf(),
        final(disp)@ == spec_print(old(disp)@, arg@ + newline_text()),
{
    let nl = build_newline_text();
    let ghost pre = disp@;
    disp.print(arg);
    disp.print(nl.as_slice());
    proof {
        crate::vga::lemma_print_append(pre, arg@, newline_text());
    }
}

/// What processing a line does to the display, and the hardware action it
/// asks for: nothing on a blank line; the matched command's effect, on its
/// trimmed argument, when a name matches; the unknown-command diagnostic
/// otherwise.
pub open spec fn spec_process_outcome(v: DisplayView, cmd: Seq<u8>) -> (DisplayView, HwAction) {
    let t = spec_trim_start(cmd);
    if t.len() == 0 {
        (v, HwAction::Nothing)
    } else {
        match spec_find(spec_registry(), t) {
            Some(c) => {
                let arg = spec_trim_start(t.skip(c.name.len() as int));
                match c.kind {
                    CmdKind::Help => (
                        spec_print(v, spec_help_text(spec_registry())),
                        HwAction::Nothing,
                    ),
                    CmdKind::Clear => (
                        DisplayView { grid: blank_grid(), x: 0, y: 0 },
                        HwAction::Nothing,
                    ),
                    CmdKind::Reboot => (v, HwAction::Reboot),
                    CmdKind::Shutdown => (v, HwAction::Shutdown),
                    CmdKind::Echo => (spec_print(v, arg + newline_text()), HwAction::Nothing),
                }
            },
            None => (spec_print(v, unknown_text() + t + newline_text()), HwAction::Nothing),
        }
    }
}

/// Processes one submitted line: trims it, finds the first matching
/// command, runs its effect on the display, and returns the hardware
/// action the caller must perform.
pub fn process_cmd(disp: &mut Display, cmd: &[u8]) -> (act: HwAction)
    requires
        old(disp).wf(),
    ensures
        final(disp).wf(),
        (final(disp)@, act) == spec_process_outcome(old(disp)@, cmd@),
{
    let start = trim_start_idx(cmd);
    let t = vstd::slice::slice_subrange(cmd, start, cmd.len());
    if t.len() == 0 {
        return HwAction::Nothing;
    }
    let registry = commands();
    let mut i: usize = 0;
    proof {
        assert(spec_registry().skip(0) =~= spec_registry());
    }
    while i < registry.len()
        invariant
            i <= registry@.len(),
            registry@.len() == spec_registry().len(),
            forall|j: int| 0 <= j < registry@.len() ==> #[trigger] registry@[j]@ == spec_registry()[j],
            t@ == spec_trim_start(cmd@),
            t@.len() > 0,
            disp == old(disp),
            disp.wf(),
            spec_find(spec_registry(), t@) == spec_find(
                spec_registry().skip(i as int),
                t@,
            ),
        decreases registry@.len() - i,
    {
        let ghost c = spec_registry()[i as int];
        proof {
            assert(registry@[i as int]@ == c);
            assert(registry@[i as int].name@ == c.name);
            assert(spec_registry().skip(i as int)[0] == c);
            assert(spec_registry().skip(i as int).skip(1) =~= spec_registry().skip(i + 1));
        }
        if cmd_match(t, registry[i].name.as_slice()) {
            let name_len = registry[i].name.len();
            let tail = vstd::slice::slice_subrange(t, name_len, t.len());
            let arg_start = trim_start_idx(tail);
            let arg = vstd::slice::slice_subrange(tail, arg_start, tail.len());
            proof {
                assert(tail@ =~= t@.skip(c.name.len() as int));
                assert(arg@ =~= spec_trim_start(t@.skip(c.name.len() as int)));
            }
            match registry[i].kind {
                CmdKind::Help => {
                    cmd_help(disp, arg);
                    return HwAction::Nothing;
                },
                CmdKind::Clear => {
                    cmd_clear(disp, arg);
                    return HwAction::Nothing;
                },
                CmdKind::Reboot => {
                    return cmd_reboot(arg);
                },
                CmdKind::Shutdown => {
                    return cmd_shutdown(arg);
                },
                CmdKind::Echo => {
                    cmd_echo(disp, arg);
                    return HwAction::Nothing;
                },
            }
        }
        i += 1;
    }
    let unknown = build_unknown_text();
    let nl = build_newline_text();
    let ghost pre = disp@;
    disp.print(unknown.as_slice());
    disp.print(t);
    disp.print(nl.as_slice());
    proof {
        assert(spec_registry().skip(registry@.len() as int) =~= Seq::<CommandSpec>::empty());
        crate::vga::lemma_print_append(pre, unknown_text(), t@);
        crate::vga::lemma_print_append(pre, unknown_text() + t@, newline_text());
    }
    HwAction::Nothing
}

/// The bytes of `"help"`.
pub open spec fn name_help() -> Seq<u8> {
    seq![104u8, 101u8, 108u8, 112u8]
}

fn build_name_help() -> (v: Vec<u8>)
    ensures
        v@ == name_help(),
{
    let mut v: Vec<u8> = Vec::new();
    v.push(104);
    v.push(101);
    v.push(108);
    v.push(112);
    proof {
        assert(v@ =~= name_help());
    }
    v
}

/// The bytes of `"clear"`.
pub open spec fn name_clear() -> Seq<u8> {
    seq![99u8, 108u8, 101u8, 97u8, 114u8]
}

fn build_name_clear() -> (v: Vec<u8>)
    ensures
        v@ == name_clear(),
{
    let mut v: Vec<u8> = Vec::new();
    v.push(99);
    v.push(108);
    v.push(101);
    v.push(97);
    v.push(114);
    proof {
        assert(v@ =~= name_clear());
    }
    v
}

/// The bytes of `"cls"`.
pub open spec fn name_cls() -> Seq<u8> {
    seq![99u8, 108u8, 115u8]
}

fn build_name_cls() -> (v: Vec<u8>)
    ensures
        v@ == name_cls(),
{
    let mut v: Vec<u8> = Vec::new();
    v.push(99);
    v.push(108);
    v.push(115);
    proof {
        assert(v@ =~= name_cls());
    }
    v
}

/// The bytes of `"reboot"`.
pub open spec fn name_reboot() -> Seq<u8> {
    seq![114u8, 101u8, 98u8, 111u8, 111u8, 116u8]
}

fn build_name_reboot() -> (v: Vec<u8>)
    ensures
        v@ == name_reboot(),
{
    let mut v: Vec<u8> = Vec::new();
    v.push(114);
    v.push(101);
    v.push(98);
    v.push(111);
    v.push(111);
    v.push(116);
    proof {
        assert(v@ =~= name_reboot());
    }
    v
}

/// The bytes of `"shutdown"`.
pub open spec fn name_shutdown() -> Seq<u8> {
    seq![115u8, 104u8, 117u8, 116u8, 100u8, 111u8, 119u8, 110u8]
}

fn build_name_shutdown() -> (v: Vec<u8>)
    ensures
        v@ == name_shutdown(),
{
    let mut v: Vec<u8> = Vec::new();
    v.push(115);
    v.push(104);
    v.push(117);
    v.push(116);
    v.push(100);
    v.push(111);
    v.push(119);
    v.push(110);
    proof {
        assert(v@ =~= name_shutdown());
    }
    v
}

/// The bytes of `"echo"`.
pub open spec fn name_echo() -> Seq<u8> {
    seq![101u8, 99u8, 104u8, 111u8]
}

fn build_name_echo() -> (v: Vec<u8>)
    ensures
        v@ == name_echo(),
{
    let mut v: Vec<u8> = Vec::new();
    v.push(101);
    v.push(99);
    v.push(104);
    v.push(111);
    proof {
        assert(v@ =~= name_echo());
    }
    v
}

/// The bytes of `"mostra esta ajuda"`.
pub open spec fn desc_help() -> Seq<u8> {
    seq![
        109u8, 111u8, 115u8, 116u8, 114u8, 97u8, 32u8, 101u8, 115u8, 116u8, 97u8, 32u8, 97u8,
        106u8, 117u8, 100u8, 97u8,
    ]
}

fn build_desc_help() -> (v: Vec<u8>)
    ensures
        v@ == desc_help(),
{
    let mut v: Vec<u8> = Vec::new();
    v.push(109);
    v.push(111);
    v.push(115);
    v.push(116);
    v.push(114);
    v.push(97);
    v.push(32);
    v.push(101);
    v.push(115);
    v.push(116);
    v.push(97);
    v.push(32);
    v.push(97);
    v.push(106);
    v.push(117);
    v.push(100);
    v.push(97);
    proof {
        assert(v@ =~= desc_help());
    }
    v
}

/// The bytes of `"limpa a tela"`.
pub open spec fn desc_clear() -> Seq<u8> {
    seq![108u8, 105u8, 109u8, 112u8, 97u8, 32u8, 97u8, 32u8, 116u8, 101u8, 108u8, 97u8]
}

fn build_desc_clear() -> (v: Vec<u8>)
    ensures
        v@ == desc_clear(),
{
    let mut v: Vec<u8> = Vec::new();
    v.push(108);
    v.push(105);
    v.push(109);
    v.push(112);
    v.push(97);
    v.push(32);
    v.push(97);
    v.push(32);
    v.push(116);
    v.push(101);
    v.push(108);
    v.push(97);
    proof {
        assert(v@ =~= desc_clear());
    }
    v
}

/// The bytes of `"alias para clear"`.
pub open spec fn desc_cls() -> Seq<u8> {
    seq![
        97u8, 108u8, 105u8, 97u8, 115u8, 32u8, 112u8, 97u8, 114u8, 97u8, 32u8, 99u8, 108u8, 101u8,
        97u8, 114u8,
    ]
}

fn build_desc_cls() -> (v: Vec<u8>)
    ensures
        v@ == desc_cls(),
{
    let mut v: Vec<u8> = Vec::new();
    v.push(97);
    v.push(108);
    v.push(105);
    v.push(97);
    v.push(115);
    v.push(32);
    v.push(112);
    v.push(97);
    v.push(114);
    v.push(97);
    v.push(32);
    v.push(99);
    v.push(108);
    v.push(101);
    v.push(97);
    v.push(114);
    proof {
        assert(v@ =~= desc_cls());
    }
    v
}

/// The bytes of `"reinicia o sistema"`.
pub open spec fn desc_reboot() -> Seq<u8> {
    seq![
        114u8, 101u8, 105u8, 110u8, 105u8, 99u8, 105u8, 97u8, 32u8, 111u8, 32u8, 115u8, 105u8,
        115u8, 116u8, 101u8, 109u8, 97u8,
    ]
}

fn build_desc_reboot() -> (v: Vec<u8>)
    ensures
        v@ == desc_reboot(),
{
    let mut v: Vec<u8> = Vec::new();
    v.push(114);
    v.push(101);
    v.push(105);
    v.push(110);
    v.push(105);
    v.push(99);
    v.push(105);
    v.push(97);
    v.push(32);
    v.push(111);
    v.push(32);
    v.push(115);
    v.push(105);
    v.push(115);
    v.push(116);
    v.push(101);
    v.push(109);
    v.push(97);
    proof {
        assert(v@ =~= desc_reboot());
    }
    v
}

/// The bytes of `"desliga o sistema"`.
pub open spec fn desc_shutdown() -> Seq<u8> {
    seq![
        100u8, 101u8, 115u8, 108u8, 105u8, 103u8, 97u8, 32u8, 111u8, 32u8, 115u8, 105u8, 115u8,
        116u8, 101u8, 109u8, 97u8,
    ]
}

fn build_desc_shutdown() -> (v: Vec<u8>)
    ensures
        v@ == desc_shutdown(),
{
    let mut v: Vec<u8> = Vec::new();
    v.push(100);
    v.push(101);
    v.push(115);
    v.push(108);
    v.push(105);
    v.push(103);
    v.push(97);
    v.push(32);
    v.push(111);
    v.push(32);
    v.push(115);
    v.push(105);
    v.push(115);
    v.push(116);
    v.push(101);
    v.push(109);
    v.push(97);
    proof {
        assert(v@ =~= desc_shutdown());
    }
    v
}

/// The bytes of `"imprime texto"`.
pub open spec fn desc_echo() -> Seq<u8> {
    seq![105u8, 109u8, 112u8, 114u8, 105u8, 109u8, 101u8, 32u8, 116u8, 101u8, 120u8, 116u8, 111u8]
}

fn build_desc_echo() -> (v: Vec<u8>)
    ensures
        v@ == desc_echo(),
{
    let mut v: Vec<u8> = Vec::new();
    v.push(105);
    v.push(109);
    v.push(112);
    v.push(114);
    v.push(105);
    v.push(109);
    v.push(101);
    v.push(32);
    v.push(116);
    v.push(101);
    v.push(120);
    v.push(116);
    v.push(111);
    proof {
        assert(v@ =~= desc_echo());
    }
    v
}

/// The bytes of `" - "`.
pub open spec fn sep_text() -> Seq<u8> {
    seq![32u8, 45u8, 32u8]
}

fn build_sep_text() -> (v: Vec<u8>)
    ensures
        v@ == sep_text(),
{
    let mut v: Vec<u8> = Vec::new();
    v.push(32);
    v.push(45);
    v.push(32);
    proof {
        assert(v@ =~= sep_text());
    }
    v
}

/// The bytes of `"\n"`.
pub open spec fn newline_text() -> Seq<u8> {
    seq![10u8]
}

fn build_newline_text() -> (v: Vec<u8>)
    ensures
        v@ == newline_text(),
{
    let mut v: Vec<u8> = Vec::new();
    v.push(10);
    proof {
        assert(v@ =~= newline_text());
    }
    v
}

/// The bytes of `"Comando desconhecido: "`.
pub open spec fn unknown_text() -> Seq<u8> {
    seq![
        67u8, 111u8, 109u8, 97u8, 110u8, 100u8, 111u8, 32u8, 100u8, 101u8, 115u8, 99u8, 111u8,
        110u8, 104u8, 101u8, 99u8, 105u8, 100u8, 111u8, 58u8, 32u8,
    ]
}

fn build_unknown_text() -> (v: Vec<u8>)
    ensures
        v@ == unknown_text(),
{
    let mut v: Vec<u8> = Vec::new();
    v.push(67);
    v.push(111);
    v.push(109);
    v.push(97);
    v.push(110);
    v.push(100);
    v.push(111);
    v.push(32);
    v.push(100);
    v.push(101);
    v.push(115);
    v.push(99);
    v.push(111);
    v.push(110);
    v.push(104);
    v.push(101);
    v.push(99);
    v.push(105);
    v.push(100);
    v.push(111);
    v.push(58);
    v.push(32);
    proof {
        assert(v@ =~= unknown_text());
    }
    v
}

} // verus!
