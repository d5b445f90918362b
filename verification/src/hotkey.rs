//! Hotkeys: reading them from the configuration file's text, the default
//! configuration, their registration ids, and the keyboard hook's verdict on
//! a key press.
use vstd::prelude::*;
use crate::text::{
    ascii_upper, first_index, first_index_finds_first, find_char, is_whitespace, lemma_split_concat,
    lemma_split_nonempty, lemma_trim_end_range, same_chars, split, split_ranges,
    split_without_separator, trim, trim_end, trim_range, trim_start, upper, upper_range,
};

verus! {

/// Virtual-key code of F13.
pub const VK_F13: u32 = 0x7C;

/// Virtual-key code of Home.
pub const VK_HOME: u32 = 0x24;

/// The hotkey used when the configuration names none: Home.
pub const DEFAULT_HOTKEY: u32 = 0x24;

/// `WM_KEYDOWN`.
pub const WM_KEYDOWN: u32 = 0x0100;

/// `WM_SYSKEYDOWN`.
pub const WM_SYSKEYDOWN: u32 = 0x0104;

/// The unassigned virtual key sent around a swallowed hotkey, so that the
/// system does not read the release of held modifiers as a key of its own.
pub const VK_MASK: u8 = 0xE8;

/// The virtual-key code that a key name of the configuration stands for
/// (names are compared without regard to ASCII case).
pub open spec fn key_code(name: Seq<char>) -> Option<u32> {
    let u = upper(name);
    if u == seq!['F', '1', '3'] {
        Some(0x7Cu32)
    } else if u == seq!['H', 'O', 'M', 'E'] {
        Some(0x24u32)
    } else if u == seq!['F', '1', '4'] {
        Some(0x7Du32)
    } else if u == seq!['F', '1', '5'] {
        Some(0x7Eu32)
    } else if u == seq!['F', '1', '6'] {
        Some(0x7Fu32)
    } else if u == seq!['F', '1', '7'] {
        Some(0x80u32)
    } else if u == seq!['F', '1', '8'] {
        Some(0x81u32)
    } else if u == seq!['F', '1', '9'] {
        Some(0x82u32)
    } else if u == seq!['F', '2', '0'] {
        Some(0x83u32)
    } else if u == seq!['F', '2', '1'] {
        Some(0x84u32)
    } else if u == seq!['F', '2', '2'] {
        Some(0x85u32)
    } else if u == seq!['F', '2', '3'] {
        Some(0x86u32)
    } else if u == seq!['F', '2', '4'] {
        Some(0x87u32)
    } else {
        None
    }
}

/// The codes of the keys that a configuration can name: F13 to F24 and Home.
pub open spec fn is_supported_key(vk: u32) -> bool {
    vk == 0x24 || (0x7C <= vk && vk <= 0x87)
}

/// Whether a setting's name is `hotkey`, in any ASCII case.
pub open spec fn names_hotkey(name: Seq<char>) -> bool {
    upper(name) == seq!['H', 'O', 'T', 'K', 'E', 'Y']
}

pub open spec fn code_seq(o: Option<u32>) -> Seq<u32> {
    match o {
        Some(k) => seq![k],
        None => Seq::empty(),
    }
}

/// The keys named by the comma-separated parts of a `hotkey` value, in order;
/// unknown names are skipped.
pub open spec fn value_keys(parts: Seq<Seq<char>>) -> Seq<u32>
    decreases parts.len(),
{
    if parts.len() == 0 {
        Seq::empty()
    } else {
        value_keys(parts.drop_last()) + code_seq(key_code(trim(parts.last())))
    }
}

/// The keys that one line of the configuration names: none for a blank line,
/// a comment (`#` or `;`), a line without `=`, or a setting other than
/// `hotkey`.
pub open spec fn line_keys(line: Seq<char>) -> Seq<u32> {
    let t = trim(line);
    if t.len() == 0 || t[0] == '#' || t[0] == ';' {
        Seq::empty()
    } else {
        match first_index(t, '=') {
            None => Seq::empty(),
            Some(i) => if names_hotkey(trim(t.take(i))) {
                value_keys(split(t.skip(i + 1), ','))
            } else {
                Seq::empty()
            },
        }
    }
}

pub open spec fn lines_keys(lines: Seq<Seq<char>>) -> Seq<u32>
    decreases lines.len(),
{
    if lines.len() == 0 {
        Seq::empty()
    } else {
        lines_keys(lines.drop_last()) + line_keys(lines.last())
    }
}

/// The keys that a configuration text names, line by line, in order.
pub open spec fn parsed_keys(content: Seq<char>) -> Seq<u32> {
    lines_keys(split(content, '\n'))
}

/// The hotkeys in use: those the configuration names, or Home alone where it
/// names none (or could not be read).
pub open spec fn hotkeys_in_use(content: Option<Seq<char>>) -> Seq<u32> {
    let named = match content {
        Some(c) => parsed_keys(c),
        None => Seq::empty(),
    };
    if named.len() == 0 {
        seq![DEFAULT_HOTKEY]
    } else {
        named
    }
}

/// Whether a configuration (or its absence) leaves nothing named, so that the
/// default configuration is to be written out.
pub open spec fn needs_default(content: Option<Seq<char>>) -> bool {
    match content {
        Some(c) => parsed_keys(c).len() == 0,
        None => true,
    }
}

proof fn lemma_value_keys_supported(parts: Seq<Seq<char>>)
    ensures
        forall|i: int|
            0 <= i < value_keys(parts).len() ==> is_supported_key(#[trigger] value_keys(parts)[i]),
    decreases parts.len(),
{
    if parts.len() > 0 {
        lemma_value_keys_supported(parts.drop_last());
        let a = value_keys(parts.drop_last());
        let b = code_seq(key_code(trim(parts.last())));
        assert forall|i: int| 0 <= i < (a + b).len() implies is_supported_key(#[trigger] (a + b)[i]) by {
            if i >= a.len() {
                assert(b[i - a.len()] == (a + b)[i]);
            }
        }
    }
}

proof fn lemma_lines_keys_supported(lines: Seq<Seq<char>>)
    ensures
        forall|i: int|
            0 <= i < lines_keys(lines).len() ==> is_supported_key(#[trigger] lines_keys(lines)[i]),
    decreases lines.len(),
{
    if lines.len() > 0 {
        lemma_lines_keys_supported(lines.drop_last());
        let a = lines_keys(lines.drop_last());
        let line = lines.last();
        let b = line_keys(line);
        let t = trim(line);
        if !(t.len() == 0 || t[0] == '#' || t[0] == ';') {
            if let Some(k) = first_index(t, '=') {
                lemma_value_keys_supported(split(t.skip(k + 1), ','));
            }
        }
        assert forall|i: int| 0 <= i < (a + b).len() implies is_supported_key(#[trigger] (a + b)[i]) by {
            if i >= a.len() {
                assert(b[i - a.len()] == (a + b)[i]);
            }
        }
    }
}

/// There is always at least one hotkey.
pub proof fn hotkeys_never_empty(content: Option<Seq<char>>)
    ensures
        hotkeys_in_use(content).len() >= 1,
{
}

/// Every hotkey in use is one of the supported keys (F13 to F24, Home).
pub proof fn hotkeys_are_supported(content: Option<Seq<char>>)
    ensures
        forall|i: int|
            0 <= i < hotkeys_in_use(content).len() ==> is_supported_key(
                #[trigger] hotkeys_in_use(content)[i],
            ),
{
    if let Some(c) = content {
        lemma_lines_keys_supported(split(c, '\n'));
    }
}

/// The default configuration is written exactly when no hotkey is named,
/// and then Home alone is in use; otherwise the keys in use are the named
/// ones.
pub proof fn default_is_home(content: Option<Seq<char>>)
    ensures
        needs_default(content) ==> hotkeys_in_use(content) == seq![DEFAULT_HOTKEY],
        !needs_default(content) ==> hotkeys_in_use(content) == parsed_keys(content->Some_0),
{
}

proof fn lemma_lines_keys_concat(l1: Seq<Seq<char>>, l2: Seq<Seq<char>>)
    ensures
        lines_keys(l1 + l2) == lines_keys(l1) + lines_keys(l2),
    decreases l2.len(),
{
    if l2.len() == 0 {
        assert(l1 + l2 =~= l1);
        assert(lines_keys(l1) + lines_keys(l2) =~= lines_keys(l1));
    } else {
        lemma_lines_keys_concat(l1, l2.drop_last());
        assert((l1 + l2).drop_last() =~= l1 + l2.drop_last());
        assert((l1 + l2).last() == l2.last());
        assert(lines_keys(l1 + l2) =~= lines_keys(l1) + lines_keys(l2));
    }
}

/// Lines are read one by one: the keys of two texts joined by a line break
/// are the keys of the first followed by those of the second, so several
/// `hotkey` lines add up.
pub proof fn lines_add_up(a: Seq<char>, b: Seq<char>)
    ensures
        parsed_keys(a.push('\n') + b) == parsed_keys(a) + parsed_keys(b),
{
    lemma_split_concat(a, b, '\n');
    lemma_lines_keys_concat(split(a, '\n'), split(b, '\n'));
}

/// Key names are read without regard to ASCII case.
pub proof fn key_names_ignore_case(a: Seq<char>, b: Seq<char>)
    requires
        upper(a) == upper(b),
    ensures
        key_code(a) == key_code(b),
        names_hotkey(a) == names_hotkey(b),
{
}

/// What the configuration decides: the hotkeys, and whether to write out the
/// default configuration.
pub struct HotkeyConfig {
    pub keys: Vec<u32>,
    pub write_default: bool,
}

/// The key code that `s[lo..hi]` names, if any.
fn key_code_of(s: &[char], lo: usize, hi: usize) -> (r: Option<u32>)
    requires
        lo <= hi <= s@.len(),
    ensures
        r == key_code(s@.subrange(lo as int, hi as int)),
{
    let u = upper_range(s, lo, hi);
    let u = u.as_slice();
    if same_chars(u, &['F', '1', '3']) {
        Some(0x7C)
    } else if same_chars(u, &['H', 'O', 'M', 'E']) {
        Some(0x24)
    } else if same_chars(u, &['F', '1', '4']) {
        Some(0x7D)
    } else if same_chars(u, &['F', '1', '5']) {
        Some(0x7E)
    } else if same_chars(u, &['F', '1', '6']) {
        Some(0x7F)
    } else if same_chars(u, &['F', '1', '7']) {
        Some(0x80)
    } else if same_chars(u, &['F', '1', '8']) {
        Some(0x81)
    } else if same_chars(u, &['F', '1', '9']) {
        Some(0x82)
    } else if same_chars(u, &['F', '2', '0']) {
        Some(0x83)
    } else if same_chars(u, &['F', '2', '1']) {
        Some(0x84)
    } else if same_chars(u, &['F', '2', '2']) {
        Some(0x85)
    } else if same_chars(u, &['F', '2', '3']) {
        Some(0x86)
    } else if same_chars(u, &['F', '2', '4']) {
        Some(0x87)
    } else {
        None
    }
}

/// The keys that the value `s[lo..hi]` of a `hotkey` setting names.
fn keys_in_value(s: &[char], lo: usize, hi: usize) -> (r: Vec<u32>)
    requires
        lo <= hi <= s@.len(),
    ensures
        r@ == value_keys(split(s@.subrange(lo as int, hi as int), ',')),
{
    let ghost parts = split(s@.subrange(lo as int, hi as int), ',');
    let ranges = split_ranges(s, lo, hi, ',');
    let mut keys: Vec<u32> = Vec::new();
    let mut k: usize = 0;
    proof {
        assert(parts.take(0) =~= Seq::<Seq<char>>::empty());
    }
    while k < ranges.len()
        invariant
            lo <= hi <= s@.len(),
            k <= ranges@.len() == parts.len(),
            parts == split(s@.subrange(lo as int, hi as int), ','),
            forall|j: int|
                0 <= j < ranges@.len() ==> {
                    &&& lo <= (#[trigger] ranges@[j]).0 <= ranges@[j].1 <= hi
                    &&& s@.subrange(ranges@[j].0 as int, ranges@[j].1 as int) == parts[j]
                },
            keys@ == value_keys(parts.take(k as int)),
        decreases ranges@.len() - k,
    {
        let (a, b): (usize, usize) = ranges[k];
        let (ta, tb): (usize, usize) = trim_range(s, a, b);
        let code = key_code_of(s, ta, tb);
        proof {
            assert(parts.take(k + 1).drop_last() =~= parts.take(k as int));
            assert(parts.take(k + 1).last() == parts[k as int]);
        }
        match code {
            Some(c) => {
                keys.push(c);
            },
            None => {},
        }
        k = k + 1;
        proof {
            assert(keys@ =~= value_keys(parts.take(k as int)));
        }
    }
    proof {
        assert(parts.take(parts.len() as int) =~= parts);
    }
    keys
}

/// The keys that the line `s[lo..hi]` names.
fn keys_in_line(s: &[char], lo: usize, hi: usize) -> (r: Vec<u32>)
    requires
        lo <= hi <= s@.len(),
    ensures
        r@ == line_keys(s@.subrange(lo as int, hi as int)),
{
    let ghost line = s@.subrange(lo as int, hi as int);
    let (a, b): (usize, usize) = trim_range(s, lo, hi);
    let ghost t = s@.subrange(a as int, b as int);
    assert(t == trim(line));
    assert(a < b ==> t[0] == s@[a as int]);
    if a == b || s[a] == '#' || s[a] == ';' {
        return Vec::new();
    }
    match find_char(s, a, b, '=') {
        None => Vec::new(),
        Some(e) => {
            proof {
                assert(first_index(t, '=') == Some((e - a) as int));
                assert(t.take(e - a) =~= s@.subrange(a as int, e as int));
                assert(t.skip(e - a + 1) =~= s@.subrange(e + 1, b as int));
            }
            let (ka, kb): (usize, usize) = trim_range(s, a, e);
            let name = upper_range(s, ka, kb);
            if same_chars(name.as_slice(), &['H', 'O', 'T', 'K', 'E', 'Y']) {
                keys_in_value(s, e + 1, b)
            } else {
                Vec::new()
            }
        },
    }
}

/// The keys that a configuration text names, in order of appearance.
pub fn parse_hotkeys(content: &[char]) -> (keys: Vec<u32>)
    ensures
        keys@ == parsed_keys(content@),
{
    let ghost lines = split(content@, '\n');
    proof {
        assert(content@.subrange(0, content@.len() as int) =~= content@);
        assert(lines.take(0) =~= Seq::<Seq<char>>::empty());
    }
    let ranges = split_ranges(content, 0, content.len(), '\n');
    let mut keys: Vec<u32> = Vec::new();
    let mut k: usize = 0;
    while k < ranges.len()
        invariant
            k <= ranges@.len() == lines.len(),
            lines == split(content@, '\n'),
            forall|j: int|
                0 <= j < ranges@.len() ==> {
                    &&& (#[trigger] ranges@[j]).0 <= ranges@[j].1 <= content@.len()
                    &&& content@.subrange(ranges@[j].0 as int, ranges@[j].1 as int) == lines[j]
                },
            keys@ == lines_keys(lines.take(k as int)),
        decreases ranges@.len() - k,
    {
        let (a, b): (usize, usize) = ranges[k];
        let line = keys_in_line(content, a, b);
        proof {
            assert(lines.take(k + 1).drop_last() =~= lines.take(k as int));
            assert(lines.take(k + 1).last() == lines[k as int]);
        }
        let mut j: usize = 0;
        let ghost before = keys@;
        while j < line.len()
            invariant
                j <= line@.len(),
                keys@ =~= before + line@.take(j as int),
            decreases line@.len() - j,
        {
            keys.push(line[j]);
            j = j + 1;
            proof {
                assert(keys@ =~= before + line@.take(j as int));
            }
        }
        k = k + 1;
        proof {
            assert(line@.take(line@.len() as int) =~= line@);
            assert(keys@ =~= lines_keys(lines.take(k as int)));
        }
    }
    proof {
        assert(lines.take(lines.len() as int) =~= lines);
    }
    keys
}

/// The hotkeys to use given the configuration text (`None` where the file
/// could not be read): those it names, or Home alone, in which case the
/// default configuration is to be written out.
pub fn hotkeys_from_config(content: Option<Vec<char>>) -> (r: HotkeyConfig)
    ensures
        r.keys@ == hotkeys_in_use(
            match content {
                Some(c) => Some(c@),
                None => None,
            },
        ),
        r.write_default == needs_default(
            match content {
                Some(c) => Some(c@),
                None => None,
            },
        ),
{
    let mut keys = match content {
        Some(c) => parse_hotkeys(c.as_slice()),
        None => Vec::new(),
    };
    if keys.len() == 0 {
        keys.push(DEFAULT_HOTKEY);
        HotkeyConfig { keys, write_default: true }
    } else {
        HotkeyConfig { keys, write_default: false }
    }
}

/// The configuration written out where none names a hotkey.
pub fn default_config() -> (r: &'static str)
    ensures
        r@ == "# QuickMute Configuration\n# Configure your physical mute hotkey below.\n# Supported keys: F13, HOME, F14, F15, F16, F17, F18, F19, F20, F21, F22, F23, F24\n# You can also specify multiple keys separated by commas (e.g. hotkey = F13, HOME)\nhotkey = HOME\n"@,
{
    "# QuickMute Configuration\n# Configure your physical mute hotkey below.\n# Supported keys: F13, HOME, F14, F15, F16, F17, F18, F19, F20, F21, F22, F23, F24\n# You can also specify multiple keys separated by commas (e.g. hotkey = F13, HOME)\nhotkey = HOME\n"
}

/// A hotkey registration: the id it is registered under and its key.
pub struct HotkeyBinding {
    pub id: i32,
    pub vk: u32,
}

/// The registrations of the configured hotkeys: the key at position `i` under
/// id `i + 1`.
pub fn hotkey_bindings(keys: &Vec<u32>) -> (r: Vec<HotkeyBinding>)
    ensures
        r@.len() == keys@.len(),
        forall|i: int|
            0 <= i < keys@.len() ==> (#[trigger] r@[i]).id == (i + 1) as i32 && r@[i].vk
                == keys@[i],
{
    let mut r: Vec<HotkeyBinding> = Vec::new();
    let mut i: usize = 0;
    while i < keys.len()
        invariant
            i <= keys@.len(),
            r@.len() == i,
            forall|j: int|
                0 <= j < i ==> (#[trigger] r@[j]).id == (j + 1) as i32 && r@[j].vk == keys@[j],
        decreases keys@.len() - i,
    {
        let id: i32 = (i + 1) as i32;
        r.push(HotkeyBinding { id, vk: keys[i] });
        i = i + 1;
    }
    r
}

/// What the keyboard hook does with a key event.
#[derive(PartialEq, Eq, Structural, Clone, Copy, Debug)]
pub enum HookAction {
    /// Not a hotkey press: hand the event on to the next hook.
    Forward,
    /// A hotkey press with no window to notify yet: send the mask key, then
    /// hand the event on.
    MaskAndForward,
    /// A hotkey press: send the mask key, post the mute trigger to the window
    /// and swallow the event.
    MaskAndTrigger,
}

/// Whether `vk` is a hotkey: one of the configured keys, or Home while none are
/// configured yet.
pub open spec fn is_hotkey(keys: Option<Seq<u32>>, vk: u32) -> bool {
    match keys {
        Some(k) => k.contains(vk),
        None => vk == DEFAULT_HOTKEY,
    }
}

/// Whether a hook event is a key press (`WM_KEYDOWN` or `WM_SYSKEYDOWN`).
pub open spec fn is_key_press(code: i32, wparam: usize) -> bool {
    code >= 0 && (wparam as u32 == WM_KEYDOWN || wparam as u32 == WM_SYSKEYDOWN)
}

pub open spec fn hook_verdict(
    code: i32,
    wparam: usize,
    vk: u32,
    keys: Option<Seq<u32>>,
    window: bool,
) -> HookAction {
    if is_key_press(code, wparam) && is_hotkey(keys, vk) {
        if window {
            HookAction::MaskAndTrigger
        } else {
            HookAction::MaskAndForward
        }
    } else {
        HookAction::Forward
    }
}

/// The low-level keyboard hook's verdict on an event with hook code `code`,
/// message `wparam` and virtual key `vk`, given the configured keys (if set
/// yet) and whether the window to notify exists.
pub fn hook_action(code: i32, wparam: usize, vk: u32, keys: Option<&Vec<u32>>, window: bool) -> (r:
    HookAction)
    ensures
        r == hook_verdict(
            code,
            wparam,
            vk,
            match keys {
                Some(k) => Some(k@),
                None => None,
            },
            window,
        ),
{
    let msg: u32 = wparam as u32;
    if code >= 0 && (msg == WM_KEYDOWN || msg == WM_SYSKEYDOWN) {
        let target = match keys {
            Some(k) => contains_key(k, vk),
            None => vk == DEFAULT_HOTKEY,
        };
        if target {
            if window {
                HookAction::MaskAndTrigger
            } else {
                HookAction::MaskAndForward
            }
        } else {
            HookAction::Forward
        }
    } else {
        HookAction::Forward
    }
}

fn contains_key(keys: &Vec<u32>, vk: u32) -> (r: bool)
    ensures
        r == keys@.contains(vk),
{
    let mut i: usize = 0;
    while i < keys.len()
        invariant
            i <= keys@.len(),
            forall|j: int| 0 <= j < i ==> keys@[j] != vk,
        decreases keys@.len() - i,
    {
        if keys[i] == vk {
            assert(keys@[i as int] == vk);
            return true;
        }
        i = i + 1;
    }
    false
}

/// The hook's verdict in terms of its inputs: a key press (hook code at
/// least 0, message `WM_KEYDOWN` 0x100 or `WM_SYSKEYDOWN` 0x104, read from the
/// low 32 bits) of a key found anywhere in the configured list is masked, and
/// swallowed with the trigger posted when the window exists; every other
/// event is handed on untouched. Before the list is set, Home alone counts.
pub proof fn hook_recognises_every_configured_key(
    code: i32,
    wparam: usize,
    keys: Seq<u32>,
    vk: u32,
    window: bool,
)
    ensures
        forall|i: int|
            0 <= i < keys.len() ==> hook_verdict(0, 0x100, #[trigger] keys[i], Some(keys), true)
                == HookAction::MaskAndTrigger,
        forall|i: int|
            0 <= i < keys.len() ==> hook_verdict(0, 0x104, #[trigger] keys[i], Some(keys), false)
                == HookAction::MaskAndForward,
        (code >= 0 && (wparam as u32 == 0x100 || wparam as u32 == 0x104) && (exists|i: int|
            0 <= i < keys.len() && keys[i] == vk)) ==> hook_verdict(code, wparam, vk, Some(keys), window)
            == (if window {
            HookAction::MaskAndTrigger
        } else {
            HookAction::MaskAndForward
        }),
        (forall|i: int| 0 <= i < keys.len() ==> keys[i] != vk) ==> hook_verdict(
            code,
            wparam,
            vk,
            Some(keys),
            window,
        ) == HookAction::Forward,
        code < 0 ==> hook_verdict(code, wparam, vk, Some(keys), window) == HookAction::Forward,
        (wparam as u32 != 0x100 && wparam as u32 != 0x104) ==> hook_verdict(
            code,
            wparam,
            vk,
            Some(keys),
            window,
        ) == HookAction::Forward,
        hook_verdict(code, wparam, vk, None, window) == hook_verdict(
            code,
            wparam,
            vk,
            Some(seq![0x24u32]),
            window,
        ),
{
    assert forall|i: int| 0 <= i < keys.len() implies hook_verdict(0, 0x100, #[trigger] keys[i], Some(keys), true)
        == HookAction::MaskAndTrigger by {
        assert(keys.contains(keys[i]));
    }
    assert forall|i: int| 0 <= i < keys.len() implies hook_verdict(0, 0x104, #[trigger] keys[i], Some(keys), false)
        == HookAction::MaskAndForward by {
        assert(keys.contains(keys[i]));
    }
    if exists|i: int| 0 <= i < keys.len() && keys[i] == vk {
        let i = choose|i: int| 0 <= i < keys.len() && keys[i] == vk;
        assert(keys.contains(vk));
    }
    assert(seq![0x24u32].contains(vk) <==> vk == 0x24) by {
        if vk == 0x24 {
            assert(seq![0x24u32][0] == vk);
        }
    }
}

/// When the configuration names at least one key, exactly the named keys
/// are used, in the order named, and the file is left alone; the default
/// (Home alone) is used and written out only when nothing is named or the
/// file cannot be read.
pub proof fn named_keys_are_used_as_named(c: Seq<char>)
    ensures
        needs_default(Some(c)) <==> parsed_keys(c).len() == 0,
        needs_default(None::<Seq<char>>),
        parsed_keys(c).len() > 0 ==> hotkeys_in_use(Some(c)) == parsed_keys(c),
        parsed_keys(c).len() == 0 ==> hotkeys_in_use(Some(c)) == seq![0x24u32],
        hotkeys_in_use(None::<Seq<char>>) == seq![0x24u32],
{
}

/// `hotkey=` as text.
pub open spec fn hotkey_eq() -> Seq<char> {
    seq!['h', 'o', 't', 'k', 'e', 'y', '=']
}

/// The key names and their codes, without regard to ASCII case: F13 0x7C,
/// Home 0x24, F14 0x7D up to F24 0x87; any other name names no key.
pub proof fn key_name_table(n: Seq<char>)
    ensures
        upper(n) == seq!['F', '1', '3'] ==> key_code(n) == Some(0x7Cu32),
        upper(n) == seq!['H', 'O', 'M', 'E'] ==> key_code(n) == Some(0x24u32),
        upper(n) == seq!['F', '1', '4'] ==> key_code(n) == Some(0x7Du32),
        upper(n) == seq!['F', '1', '5'] ==> key_code(n) == Some(0x7Eu32),
        upper(n) == seq!['F', '1', '6'] ==> key_code(n) == Some(0x7Fu32),
        upper(n) == seq!['F', '1', '7'] ==> key_code(n) == Some(0x80u32),
        upper(n) == seq!['F', '1', '8'] ==> key_code(n) == Some(0x81u32),
        upper(n) == seq!['F', '1', '9'] ==> key_code(n) == Some(0x82u32),
        upper(n) == seq!['F', '2', '0'] ==> key_code(n) == Some(0x83u32),
        upper(n) == seq!['F', '2', '1'] ==> key_code(n) == Some(0x84u32),
        upper(n) == seq!['F', '2', '2'] ==> key_code(n) == Some(0x85u32),
        upper(n) == seq!['F', '2', '3'] ==> key_code(n) == Some(0x86u32),
        upper(n) == seq!['F', '2', '4'] ==> key_code(n) == Some(0x87u32),
        (upper(n) != seq!['F', '1', '3'] && upper(n) != seq!['H', 'O', 'M', 'E'] && upper(n) != seq![
            'F',
            '1',
            '4',
        ] && upper(n) != seq!['F', '1', '5'] && upper(n) != seq!['F', '1', '6'] && upper(n) != seq![
            'F',
            '1',
            '7',
        ] && upper(n) != seq!['F', '1', '8'] && upper(n) != seq!['F', '1', '9'] && upper(n) != seq![
            'F',
            '2',
            '0',
        ] && upper(n) != seq!['F', '2', '1'] && upper(n) != seq!['F', '2', '2'] && upper(n) != seq![
            'F',
            '2',
            '3',
        ] && upper(n) != seq!['F', '2', '4']) ==> key_code(n) is None,
{
}

proof fn lemma_value_keys_concat(p1: Seq<Seq<char>>, p2: Seq<Seq<char>>)
    ensures
        value_keys(p1 + p2) == value_keys(p1) + value_keys(p2),
    decreases p2.len(),
{
    if p2.len() == 0 {
        assert(p1 + p2 =~= p1);
        assert(value_keys(p1) + value_keys(p2) =~= value_keys(p1));
    } else {
        lemma_value_keys_concat(p1, p2.drop_last());
        assert((p1 + p2).drop_last() =~= p1 + p2.drop_last());
        assert((p1 + p2).last() == p2.last());
        assert(value_keys(p1 + p2) =~= value_keys(p1) + value_keys(p2));
    }
}

/// A one-line text is its one line.
proof fn lemma_one_line(s: Seq<char>)
    requires
        forall|i: int| 0 <= i < s.len() ==> s[i] != '\n',
    ensures
        parsed_keys(s) == line_keys(s),
{
    split_without_separator(s, '\n');
    let l = seq![s];
    assert(l.drop_last() =~= Seq::<Seq<char>>::empty());
    assert(lines_keys(l.drop_last()) =~= Seq::<u32>::empty());
    assert(lines_keys(l) =~= line_keys(s));
}

/// A `hotkey=` line reads the keys of its value.
proof fn lemma_hotkey_line(v: Seq<char>)
    requires
        forall|i: int| 0 <= i < v.len() ==> v[i] != '\n',
        v.len() == 0 || !is_whitespace(v.last()),
    ensures
        parsed_keys(hotkey_eq() + v) == value_keys(split(v, ',')),
{
    let h = hotkey_eq();
    let s = h + v;
    assert forall|i: int| 0 <= i < s.len() implies s[i] != '\n' by {
        if i >= 7 {
            assert(s[i] == v[i - 7]);
        }
    }
    lemma_one_line(s);
    assert(s[0] == 'h');
    assert(trim_start(s) == s);
    if v.len() == 0 {
        assert(s.last() == '=');
    } else {
        assert(s.last() == v.last());
    }
    assert(trim_end(s) == s);
    assert(trim(s) == s);
    first_index_finds_first(s, '=');
    assert(s[6] == '=');
    assert(first_index(s, '=') == Some(6int));
    let k = s.take(6);
    assert(k =~= seq!['h', 'o', 't', 'k', 'e', 'y']);
    assert(trim_start(k) == k);
    assert(trim_end(k) == k);
    assert(ascii_upper('h') == 'H');
    assert(ascii_upper('o') == 'O');
    assert(ascii_upper('t') == 'T');
    assert(ascii_upper('k') == 'K');
    assert(ascii_upper('e') == 'E');
    assert(ascii_upper('y') == 'Y');
    assert(upper(k) =~= seq!['H', 'O', 'T', 'K', 'E', 'Y']);
    assert(s.skip(7) =~= v);
}

/// A `hotkey=` line with a single name (no comma) names the key of that
/// name, trimmed, if it has one, and nothing otherwise.
pub proof fn hotkey_line_with_one_name(v: Seq<char>)
    requires
        forall|i: int| 0 <= i < v.len() ==> v[i] != '\n' && v[i] != ',',
        v.len() == 0 || !is_whitespace(v.last()),
    ensures
        match key_code(trim(v)) {
            Some(k) => parsed_keys(hotkey_eq() + v) == seq![k],
            None => parsed_keys(hotkey_eq() + v).len() == 0,
        },
{
    lemma_hotkey_line(v);
    split_without_separator(v, ',');
    let p = seq![v];
    assert(p.drop_last() =~= Seq::<Seq<char>>::empty());
    assert(value_keys(p) =~= value_keys(p.drop_last()) + code_seq(key_code(trim(v))));
}

/// A comma separates names: the keys of `hotkey=a,b` are the key of `a`
/// followed by the keys of `hotkey=b`.
pub proof fn comma_separates_names(v1: Seq<char>, v2: Seq<char>)
    requires
        forall|i: int| 0 <= i < v1.len() ==> v1[i] != '\n' && v1[i] != ',',
        forall|i: int| 0 <= i < v2.len() ==> v2[i] != '\n',
        v2.len() == 0 || !is_whitespace(v2.last()),
    ensures
        parsed_keys(hotkey_eq() + (v1.push(',') + v2)) == match key_code(trim(v1)) {
            Some(k) => seq![k],
            None => Seq::<u32>::empty(),
        } + parsed_keys(hotkey_eq() + v2),
{
    let v = v1.push(',') + v2;
    assert forall|i: int| 0 <= i < v.len() implies v[i] != '\n' by {
        if i > v1.len() {
            assert(v[i] == v2[i - v1.len() - 1]);
        } else if i < v1.len() {
            assert(v[i] == v1[i]);
        }
    }
    if v2.len() == 0 {
        assert(v.last() == ',');
    } else {
        assert(v.last() == v2.last());
    }
    lemma_hotkey_line(v);
    lemma_hotkey_line(v2);
    lemma_split_concat(v1, v2, ',');
    split_without_separator(v1, ',');
    lemma_value_keys_concat(seq![v1], split(v2, ','));
    let p = seq![v1];
    assert(p.drop_last() =~= Seq::<Seq<char>>::empty());
    assert(value_keys(p.drop_last()) =~= Seq::<u32>::empty());
    assert(value_keys(p) =~= value_keys(p.drop_last()) + code_seq(key_code(trim(v1))));
}

/// A comment line (starting with `#` or `;`) names no key, whatever follows.
pub proof fn comment_lines_name_nothing(v: Seq<char>)
    requires
        forall|i: int| 0 <= i < v.len() ==> v[i] != '\n',
    ensures
        parsed_keys(seq!['#'] + v).len() == 0,
        parsed_keys(seq![';'] + v).len() == 0,
{
    lemma_comment_line('#', v);
    lemma_comment_line(';', v);
}

proof fn lemma_comment_line(c: char, v: Seq<char>)
    requires
        c == '#' || c == ';',
        forall|i: int| 0 <= i < v.len() ==> v[i] != '\n',
    ensures
        parsed_keys(seq![c] + v).len() == 0,
{
    let s = seq![c] + v;
    assert forall|i: int| 0 <= i < s.len() implies s[i] != '\n' by {
        if i >= 1 {
            assert(s[i] == v[i - 1]);
        }
    }
    lemma_one_line(s);
    assert(trim_start(s) == s);
    let b = lemma_trim_end_range(s);
    assert(b > 0);
    assert(trim(s)[0] == c);
}

proof fn lemma_trim_start_skips(w: Seq<char>, s: Seq<char>)
    requires
        forall|i: int| 0 <= i < w.len() ==> is_whitespace(w[i]),
    ensures
        trim_start(w + s) == trim_start(s),
    decreases w.len(),
{
    if w.len() > 0 {
        assert((w + s)[0] == w[0]);
        assert((w + s).drop_first() =~= w.drop_first() + s);
        lemma_trim_start_skips(w.drop_first(), s);
    } else {
        assert(w + s =~= s);
    }
}

/// Whitespace before a line's text changes nothing about what it names.
pub proof fn leading_whitespace_is_ignored(w: Seq<char>, s: Seq<char>)
    requires
        forall|i: int| 0 <= i < w.len() ==> is_whitespace(w[i]) && w[i] != '\n',
        forall|i: int| 0 <= i < s.len() ==> s[i] != '\n',
    ensures
        parsed_keys(w + s) == parsed_keys(s),
{
    assert forall|i: int| 0 <= i < (w + s).len() implies (w + s)[i] != '\n' by {
        if i >= w.len() {
            assert((w + s)[i] == s[i - w.len()]);
        }
    }
    lemma_one_line(w + s);
    lemma_one_line(s);
    lemma_trim_start_skips(w, s);
}

} // verus!
