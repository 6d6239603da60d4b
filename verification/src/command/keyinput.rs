use vstd::prelude::*;
use self::keyconfig::KeyConfig;
use super::Command;
use crate::image::Rgb;
use crate::widget::palette::PaletteCellId;

pub mod keyconfig;

verus! {

/// A decimal digit.
pub open spec fn is_digit(c: char) -> bool {
    48 <= c as u32 && c as u32 <= 57
}

/// A word character, as the `set` grammar accepts for the slot name: an
/// ASCII letter, digit or underscore.
pub open spec fn is_word_char(c: char) -> bool {
    ||| 97 <= c as u32 && c as u32 <= 122
    ||| 65 <= c as u32 && c as u32 <= 90
    ||| is_digit(c)
    ||| c == '_'
}

/// A whitespace character: what ends or invalidates a path token. This
/// is the Unicode White_Space property, as `char::is_whitespace` and the
/// usual regex whitespace class define it.
pub open spec fn is_whitespace_char(c: char) -> bool {
    ||| 9 <= c as u32 && c as u32 <= 13
    ||| c == ' '
    ||| c as u32 == 0x85
    ||| c as u32 == 0xA0
    ||| c as u32 == 0x1680
    ||| 0x2000 <= c as u32 && c as u32 <= 0x200A
    ||| c as u32 == 0x2028
    ||| c as u32 == 0x2029
    ||| c as u32 == 0x202F
    ||| c as u32 == 0x205F
    ||| c as u32 == 0x3000
}

/// The first position at or after `i` that does not hold a space.
pub open spec fn skip_spaces(s: Seq<char>, i: int) -> int
    decreases s.len() - i,
        when 0 <= i <= s.len()
{
    if i >= s.len() {
        i
    } else if s[i] == ' ' {
        skip_spaces(s, i + 1)
    } else {
        i
    }
}

/// The first position at or after `i` that ends a path token: the end of
/// the line or a whitespace character.
pub open spec fn token_end(s: Seq<char>, i: int) -> int
    decreases s.len() - i,
        when 0 <= i <= s.len()
{
    if i >= s.len() {
        i
    } else if is_whitespace_char(s[i]) {
        i
    } else {
        token_end(s, i + 1)
    }
}

/// The first position at or after `i` that ends a digit run: the end of
/// the line or a non-digit.
pub open spec fn digits_end(s: Seq<char>, i: int) -> int
    decreases s.len() - i,
        when 0 <= i <= s.len()
{
    if i >= s.len() {
        i
    } else if is_digit(s[i]) {
        digits_end(s, i + 1)
    } else {
        i
    }
}

/// The numeric value of a run of decimal digits.
pub open spec fn digits_val(s: Seq<char>) -> nat
    decreases s.len(),
{
    if s.len() == 0 {
        0
    } else {
        10 * digits_val(s.drop_last()) + ((s.last() as u32 - 48) as nat)
    }
}

/// A digit run's value never shrinks when the run grows to the right.
proof fn lemma_digits_val_prefix_le(s: Seq<char>, from: int, mid: int, to: int)
    requires
        0 <= from <= mid <= to <= s.len(),
    ensures
        digits_val(s.subrange(from, mid)) <= digits_val(s.subrange(from, to)),
    decreases to - mid,
{
    if mid < to {
        lemma_digits_val_prefix_le(s, from, mid, to - 1);
        assert(s.subrange(from, to).drop_last() =~= s.subrange(from, to - 1));
        assert(digits_val(s.subrange(from, to)) >= digits_val(s.subrange(from, to - 1)));
    }
}

/// The line matches the quit command: the prefix, then `q`, with spaces
/// tolerated on both sides.
pub open spec fn parses_quit(s: Seq<char>) -> bool {
    let i = skip_spaces(s, 1);
    &&& s.len() > 0
    &&& s[0] == ':'
    &&& i < s.len()
    &&& s[i] == 'q'
    &&& skip_spaces(s, i + 1) == s.len()
}

/// The line matches the save command: the prefix, then `w`, with spaces
/// tolerated on both sides and nothing else following.
pub open spec fn parses_save(s: Seq<char>) -> bool {
    let i = skip_spaces(s, 1);
    &&& s.len() > 0
    &&& s[0] == ':'
    &&& i < s.len()
    &&& s[i] == 'w'
    &&& skip_spaces(s, i + 1) == s.len()
}

/// The save-as path of the line, when the line matches the save-as
/// command: the prefix, `w`, at least one space, one whitespace-free
/// token (the path), and nothing but spaces after it.
pub open spec fn save_as_path(s: Seq<char>) -> Option<Seq<char>> {
    let i = skip_spaces(s, 1);
    let t0 = skip_spaces(s, i + 1);
    let t1 = token_end(s, t0);
    if s.len() > 0 && s[0] == ':' && i < s.len() && s[i] == 'w' && i + 1 < s.len() && s[i + 1]
        == ' ' && t0 < s.len() && !is_whitespace_char(s[t0]) && skip_spaces(s, t1) == s.len() {
        Some(s.subrange(t0, t1))
    } else {
        None
    }
}

/// The pieces of the line when it matches the set-palette syntax: the
/// slot character and the three digit runs, each pair of tokens parted
/// by one or more spaces, with spaces tolerated at both ends.
pub open spec fn set_palette_fields(s: Seq<char>) -> Option<(char, Seq<char>, Seq<char>, Seq<char>)> {
    let i = skip_spaces(s, 1);
    let p = skip_spaces(s, i + 3);
    let q0 = skip_spaces(s, p + 1);
    let q1 = digits_end(s, q0);
    let r0 = skip_spaces(s, q1);
    let r1 = digits_end(s, r0);
    let s0 = skip_spaces(s, r1);
    let s1 = digits_end(s, s0);
    if s.len() > 0 && s[0] == ':' && i + 2 < s.len() && s[i] == 's' && s[i + 1] == 'e' && s[i + 2]
        == 't' && i + 3 < s.len() && s[i + 3] == ' ' && p < s.len() && is_word_char(s[p]) && p + 1
        < s.len() && s[p + 1] == ' ' && q0 < s.len() && is_digit(s[q0]) && q1 < s.len() && s[q1]
        == ' ' && r0 < s.len() && is_digit(s[r0]) && r1 < s.len() && s[r1] == ' ' && s0 < s.len()
        && is_digit(s[s0]) && skip_spaces(s, s1) == s.len() {
        Some((s[p], s.subrange(q0, q1), s.subrange(r0, r1), s.subrange(s0, s1)))
    } else {
        None
    }
}

/// The set-palette command of the line under the slot characters
/// `chars`: the syntax must match, the slot character must name a slot,
/// and each channel value must fit in a byte; otherwise nothing.
pub open spec fn spec_set_palette(s: Seq<char>, chars: Seq<char>) -> Option<
    (PaletteCellId, u8, u8, u8),
> {
    match set_palette_fields(s) {
        None => None,
        Some((ch, d1, d2, d3)) => match keyconfig::spec_char2id(chars, ch) {
            None => None,
            Some(id) => if digits_val(d1) <= 255 && digits_val(d2) <= 255 && digits_val(d3)
                <= 255 {
                Some((id, digits_val(d1) as u8, digits_val(d2) as u8, digits_val(d3) as u8))
            } else {
                None
            },
        },
    }
}

/// What the grammar makes of a full command line under the slot
/// characters `chars`: the first matching pattern wins, and a line that
/// matches none, or fails the slot or range checks inside `set`, is a
/// no-op.
pub open spec fn is_parsed_cmd(s: Seq<char>, chars: Seq<char>, r: Command) -> bool {
    if parses_quit(s) {
        r == Command::Quit
    } else if parses_save(s) {
        r == Command::Save
    } else if save_as_path(s) is Some {
        r matches Command::SaveAs(p) && p@ == save_as_path(s)->Some_0
    } else {
        match spec_set_palette(s, chars) {
            Some((id, cr, cg, cb)) => r == Command::SetPalette(id, Rgb(cr, cg, cb)),
            None => r == Command::Nop,
        }
    }
}

/// The command-line editing step: what one key does to the accumulated
/// text and which command it emits. `Enter` submits the line through the
/// grammar and clears it whether or not a pattern matched; a character
/// is appended; backspace removes the last character if any; anything
/// else is ignored.
pub open spec fn is_cmd_line_step(
    pre: Seq<char>,
    chars: Seq<char>,
    key: Key,
    post: Seq<char>,
    r: Command,
) -> bool {
    match key {
        Key::Enter => is_parsed_cmd(pre, chars, r) && post == Seq::<char>::empty(),
        Key::Char(ch) => r == Command::Nop && post == pre.push(ch),
        Key::Backspace => r == Command::Nop && post == (if pre.len() == 0 {
            pre
        } else {
            pre.drop_last()
        }),
        Key::Other => r == Command::Nop && post == pre,
    }
}

/// The whole input machine's step. With an empty line (Normal mode) the
/// prefix key opens the command line and any other key acts through the
/// key table; with text accumulated, the key edits or submits the line.
pub open spec fn is_machine_step(
    pre: Seq<char>,
    bindings: Seq<(Key, Command)>,
    chars: Seq<char>,
    key: Key,
    post: Seq<char>,
    r: Command,
) -> bool {
    if pre.len() == 0 {
        if key == Key::Char(':') {
            post == seq![':'] && r == Command::Nop
        } else {
            post == pre && match keyconfig::spec_lookup(bindings, key) {
                Some(c) => r == c,
                None => r == Command::Nop,
            }
        }
    } else {
        is_cmd_line_step(pre, chars, key, post, r)
    }
}

/// Law (mode invariant): the accumulated command line always starts with
/// the prefix character. Command-line mode is entered only through the
/// prefix key, and every editing step keeps the prefix until the line is
/// submitted or emptied.
pub proof fn lemma_prefix_invariant(
    pre: Seq<char>,
    bindings: Seq<(Key, Command)>,
    chars: Seq<char>,
    key: Key,
    post: Seq<char>,
    r: Command,
)
    requires
        pre.len() > 0 ==> pre[0] == ':',
        is_machine_step(pre, bindings, chars, key, post, r),
    ensures
        post.len() > 0 ==> post[0] == ':',
{
}

/// Relies on std's `String::push`: appends one character to the string.
#[verifier::external_body]
fn string_push_char(s: &mut String, c: char)
    ensures
        final(s)@ == old(s)@.push(c),
{
    s.push(c);
}

/// A decimal digit.
fn digit_char(c: char) -> (b: bool)
    ensures
        b == is_digit(c),
{
    let u = c as u32;
    48 <= u && u <= 57
}

/// A word character, as the `set` grammar accepts for the slot name.
fn word_char(c: char) -> (b: bool)
    ensures
        b == is_word_char(c),
{
    let u = c as u32;
    (97 <= u && u <= 122) || (65 <= u && u <= 90) || (48 <= u && u <= 57) || c == '_'
}

/// A whitespace character (the Unicode White_Space property): what ends
/// or invalidates a path token.
fn whitespace_char(c: char) -> (b: bool)
    ensures
        b == is_whitespace_char(c),
{
    let u = c as u32;
    (9 <= u && u <= 13) || c == ' ' || u == 0x85 || u == 0xA0 || u == 0x1680 || (0x2000 <= u && u
        <= 0x200A) || u == 0x2028 || u == 0x2029 || u == 0x202F || u == 0x205F || u == 0x3000
}

/// The first position at or after `from` that does not hold a space.
fn skip_spaces_exec(v: &Vec<char>, from: usize) -> (r: usize)
    requires
        from <= v@.len(),
    ensures
        r == skip_spaces(v@, from as int),
        from <= r <= v@.len(),
    decreases v@.len() - from,
{
    let n = v.len();
    let mut i = from;
    while i < n && v[i] == ' '
        invariant
            from <= i <= n,
            n == v@.len(),
            skip_spaces(v@, from as int) == skip_spaces(v@, i as int),
        decreases n - i,
    {
        i += 1;
    }
    i
}

/// The first position at or after `from` that ends a path token.
fn token_end_exec(v: &Vec<char>, from: usize) -> (r: usize)
    requires
        from <= v@.len(),
    ensures
        r == token_end(v@, from as int),
        from <= r <= v@.len(),
{
    let n = v.len();
    let mut i = from;
    while i < n && !whitespace_char(v[i])
        invariant
            from <= i <= n,
            n == v@.len(),
            token_end(v@, from as int) == token_end(v@, i as int),
        decreases n - i,
    {
        i += 1;
    }
    i
}

/// The first position at or after `from` that ends a digit run.
fn digits_end_exec(v: &Vec<char>, from: usize) -> (r: usize)
    requires
        from <= v@.len(),
    ensures
        r == digits_end(v@, from as int),
        from <= r <= v@.len(),
        forall|j: int| from <= j < r ==> is_digit(v@[j]),
{
    let n = v.len();
    let mut i = from;
    while i < n && digit_char(v[i])
        invariant
            from <= i <= n,
            n == v@.len(),
            digits_end(v@, from as int) == digits_end(v@, i as int),
            forall|j: int| from <= j < i ==> is_digit(v@[j]),
        decreases n - i,
    {
        i += 1;
    }
    i
}

/// The channel value of the digit run `[from, to)` of the line, when it
/// fits in a byte.
fn parse_channel(v: &Vec<char>, from: usize, to: usize) -> (r: Option<u8>)
    requires
        from <= to <= v@.len(),
        forall|j: int| from <= j < to ==> is_digit(v@[j]),
    ensures
        match r {
            Some(x) => digits_val(v@.subrange(from as int, to as int)) == x,
            None => digits_val(v@.subrange(from as int, to as int)) > 255,
        },
{
    let mut val: u32 = 0;
    let mut i = from;
    while i < to
        invariant
            from <= i <= to,
            to <= v@.len(),
            forall|j: int| from <= j < to ==> is_digit(v@[j]),
            val == digits_val(v@.subrange(from as int, i as int)),
            val <= 255,
        decreases to - i,
    {
        proof {
            assert(is_digit(v@[i as int]));
        }
        let d = (v[i] as u32) - 48;
        let nv = val * 10 + d;
        proof {
            let s1 = v@.subrange(from as int, i as int + 1);
            assert(s1.drop_last() =~= v@.subrange(from as int, i as int));
            assert(s1.last() == v@[i as int]);
            assert(digits_val(s1) == 10 * digits_val(s1.drop_last()) + ((s1.last() as u32 - 48)
                as nat));
            assert(d == (v@[i as int] as u32 - 48) as nat);
            assert(nv == digits_val(s1));
        }
        if nv > 255 {
            proof {
                lemma_digits_val_prefix_le(v@, from as int, i as int + 1, to as int);
            }
            return None;
        }
        val = nv;
        i += 1;
    }
    Some(val as u8)
}

/// One key token, as the input layer models the keyboard: a printable
/// character, the two line-editing keys, or anything else.
#[derive(Copy, Clone, Eq, PartialEq, Hash, Debug, Structural)]
pub enum Key {
    Char(char),
    Enter,
    Backspace,
    Other,
}

/// Fetch key tokens and turn them into commands: a two-state machine that
/// is in Normal mode while the command line is empty, and accumulates
/// command-line text otherwise.
#[derive(Clone, Eq, PartialEq, Debug)]
pub struct KeyInput {
    cmd_line_content: Vec<char>,
    key_config: KeyConfig,
}

impl KeyInput {
    /// The accumulated command-line text; empty in Normal mode.
    pub closed spec fn content(&self) -> Seq<char> {
        self.cmd_line_content@
    }

    pub closed spec fn config(&self) -> KeyConfig {
        self.key_config
    }

    /// Construct new KeyInput with default key config.
    pub fn new() -> (ki: Self)
        ensures
            ki.content() == Seq::<char>::empty(),
            ki.config().bindings() == keyconfig::default_bindings(),
            ki.config().slot_chars() == keyconfig::default_slot_chars(),
    {
        KeyInput { cmd_line_content: Vec::new(), key_config: KeyConfig::default() }
    }

    /// A KeyInput whose command line already holds `content`, with the
    /// default key config.
    pub fn with_cmd_line(content: Vec<char>) -> (ki: Self)
        ensures
            ki.content() == content@,
            ki.config().bindings() == keyconfig::default_bindings(),
            ki.config().slot_chars() == keyconfig::default_slot_chars(),
    {
        KeyInput { cmd_line_content: content, key_config: KeyConfig::default() }
    }

    /// The accumulated command-line text.
    pub fn cmd_line_content(&self) -> (r: &Vec<char>)
        ensures
            r@ == self.content(),
    {
        &self.cmd_line_content
    }

    /// The key table in use.
    pub fn key_config(&self) -> (r: &KeyConfig)
        ensures
            *r == self.config(),
    {
        &self.key_config
    }

    /// Try parse command as Quit command.
    fn try_parse_quit(&self) -> (r: Option<Command>)
        ensures
            r == if parses_quit(self.content()) {
                Some(Command::Quit)
            } else {
                None::<Command>
            },
    {
        let v = &self.cmd_line_content;
        let n = v.len();
        if n == 0 || v[0] != ':' {
            return None;
        }
        let i = skip_spaces_exec(v, 1);
        if i >= n || v[i] != 'q' {
            return None;
        }
        if skip_spaces_exec(v, i + 1) != n {
            return None;
        }
        Some(Command::Quit)
    }

    /// Try parse command as Save command.
    fn try_parse_save(&self) -> (r: Option<Command>)
        ensures
            r == if parses_save(self.content()) {
                Some(Command::Save)
            } else {
                None::<Command>
            },
    {
        let v = &self.cmd_line_content;
        let n = v.len();
        if n == 0 || v[0] != ':' {
            return None;
        }
        let i = skip_spaces_exec(v, 1);
        if i >= n || v[i] != 'w' {
            return None;
        }
        if skip_spaces_exec(v, i + 1) != n {
            return None;
        }
        Some(Command::Save)
    }

    /// Try parse command as SaveAs command.
    fn try_parse_save_as(&self) -> (r: Option<Command>)
        ensures
            match save_as_path(self.content()) {
                Some(p) => r matches Some(Command::SaveAs(q)) && q@ == p,
                None => r is None,
            },
    {
        let v = &self.cmd_line_content;
        let n = v.len();
        if n == 0 || v[0] != ':' {
            return None;
        }
        let i = skip_spaces_exec(v, 1);
        if i >= n || v[i] != 'w' {
            return None;
        }
        if i + 1 >= n || v[i + 1] != ' ' {
            return None;
        }
        let t0 = skip_spaces_exec(v, i + 1);
        if t0 >= n || whitespace_char(v[t0]) {
            return None;
        }
        let t1 = token_end_exec(v, t0);
        if skip_spaces_exec(v, t1) != n {
            return None;
        }
        let mut path = String::new();
        let mut j = t0;
        while j < t1
            invariant
                t0 <= j <= t1,
                t1 <= v@.len(),
                path@ == v@.subrange(t0 as int, j as int),
            decreases t1 - j,
        {
            string_push_char(&mut path, v[j]);
            proof {
                assert(v@.subrange(t0 as int, j as int).push(v@[j as int]) =~= v@.subrange(
                    t0 as int,
                    j as int + 1,
                ));
            }
            j += 1;
        }
        Some(Command::SaveAs(path))
    }

    /// Try parse command as SetPalette command.
    fn try_parse_set_palette(&self) -> (r: Option<Command>)
        ensures
            match spec_set_palette(self.content(), self.config().slot_chars()) {
                Some((id, cr, cg, cb)) => r == Some(Command::SetPalette(id, Rgb(cr, cg, cb))),
                None => r is None,
            },
    {
        let v = &self.cmd_line_content;
        let n = v.len();
        if n == 0 || v[0] != ':' {
            return None;
        }
        let i = skip_spaces_exec(v, 1);
        if n - i < 3 || v[i] != 's' || v[i + 1] != 'e' || v[i + 2] != 't' {
            return None;
        }
        if n - i < 4 || v[i + 3] != ' ' {
            return None;
        }
        let p = skip_spaces_exec(v, i + 3);
        if p >= n || !word_char(v[p]) {
            return None;
        }
        if p + 1 >= n || v[p + 1] != ' ' {
            return None;
        }
        let q0 = skip_spaces_exec(v, p + 1);
        if q0 >= n || !digit_char(v[q0]) {
            return None;
        }
        let q1 = digits_end_exec(v, q0);
        if q1 >= n || v[q1] != ' ' {
            return None;
        }
        let r0 = skip_spaces_exec(v, q1);
        if r0 >= n || !digit_char(v[r0]) {
            return None;
        }
        let r1 = digits_end_exec(v, r0);
        if r1 >= n || v[r1] != ' ' {
            return None;
        }
        let s0 = skip_spaces_exec(v, r1);
        if s0 >= n || !digit_char(v[s0]) {
            return None;
        }
        let s1 = digits_end_exec(v, s0);
        if skip_spaces_exec(v, s1) != n {
            return None;
        }
        let id = match self.key_config.char2palette_cell_id(v[p]) {
            Some(id) => id,
            None => {
                return None;
            },
        };
        let cr = match parse_channel(v, q0, q1) {
            Some(x) => x,
            None => {
                return None;
            },
        };
        let cg = match parse_channel(v, r0, r1) {
            Some(x) => x,
            None => {
                return None;
            },
        };
        let cb = match parse_channel(v, s0, s1) {
            Some(x) => x,
            None => {
                return None;
            },
        };
        Some(Command::SetPalette(id, Rgb(cr, cg, cb)))
    }

    /// Convert self.cmd_line_content to Command: the first matching
    /// pattern wins, and a line that matches none is a no-op.
    pub fn parse_cmd_line(&self) -> (r: Command)
        ensures
            is_parsed_cmd(self.content(), self.config().slot_chars(), r),
    {
        match self.try_parse_quit() {
            Some(c) => c,
            None => match self.try_parse_save() {
                Some(c) => c,
                None => match self.try_parse_save_as() {
                    Some(c) => c,
                    None => match self.try_parse_set_palette() {
                        Some(c) => c,
                        None => Command::Nop,
                    },
                },
            },
        }
    }

    /// Update `cmd_line_content` by `keycode`. If the command is ready
    /// (when `Key::Enter` is passed), this function returns the
    /// corresponding command. Otherwise this function returns
    /// `Command::Nop`.
    pub fn update_cmd_line_content(&mut self, keycode: &Key) -> (r: Command)
        ensures
            final(self).config() == old(self).config(),
            is_cmd_line_step(
                old(self).content(),
                old(self).config().slot_chars(),
                *keycode,
                final(self).content(),
                r,
            ),
    {
        match keycode {
            Key::Enter => {
                let cmd = self.parse_cmd_line();
                self.cmd_line_content.clear();
                cmd
            },
            Key::Char(ch) => {
                self.cmd_line_content.push(*ch);
                Command::Nop
            },
            Key::Backspace => {
                self.cmd_line_content.pop();
                Command::Nop
            },
            Key::Other => Command::Nop,
        }
    }

    /// Consume one key token in the current mode. With an empty command
    /// line (Normal mode), the prefix key opens the command line and any
    /// other key acts through the key table; with text accumulated, the
    /// key edits or submits the line.
    pub fn process_key(&mut self, key: &Key) -> (r: Command)
        ensures
            final(self).config() == old(self).config(),
            is_machine_step(
                old(self).content(),
                old(self).config().bindings(),
                old(self).config().slot_chars(),
                *key,
                final(self).content(),
                r,
            ),
    {
        if self.cmd_line_content.len() == 0 {
            if let Key::Char(ch) = key {
                if *ch == ':' {
                    self.cmd_line_content.push(':');
                    proof {
                        assert(self.content() =~= seq![':']);
                    }
                    return Command::Nop;
                }
            }
            match self.key_config.get(key) {
                Some(c) => c.duplicate(),
                None => Command::Nop,
            }
        } else {
            self.update_cmd_line_content(key)
        }
    }
}

} // verus!
