use vstd::prelude::*;
use super::Key;
use crate::command::{Command, Direction};
use crate::widget::palette::{PaletteCellId, NUM_CELL};

verus! {

/// The first command bound to `key` in an association table, if any.
pub open spec fn spec_lookup(bindings: Seq<(Key, Command)>, key: Key) -> Option<Command>
    decreases bindings.len(),
{
    if bindings.len() == 0 {
        None
    } else if bindings[0].0 == key {
        Some(bindings[0].1)
    } else {
        spec_lookup(bindings.drop_first(), key)
    }
}

/// The default Normal-mode bindings: h/j/k/l move the cursor and
/// w/e/r/s/d/f paint with the six palette slots.
pub open spec fn default_bindings() -> Seq<(Key, Command)> {
    seq![
        (Key::Char('h'), Command::Direction(Direction::Left)),
        (Key::Char('j'), Command::Direction(Direction::Down)),
        (Key::Char('k'), Command::Direction(Direction::Up)),
        (Key::Char('l'), Command::Direction(Direction::Right)),
        (Key::Char('w'), Command::Palette(PaletteCellId::Id0)),
        (Key::Char('e'), Command::Palette(PaletteCellId::Id1)),
        (Key::Char('r'), Command::Palette(PaletteCellId::Id2)),
        (Key::Char('s'), Command::Palette(PaletteCellId::Id3)),
        (Key::Char('d'), Command::Palette(PaletteCellId::Id4)),
        (Key::Char('f'), Command::Palette(PaletteCellId::Id5)),
    ]
}

/// The default slot characters: the same six characters, in slot order,
/// that select the slots in Normal mode name them in the `set` grammar.
pub open spec fn default_slot_chars() -> Seq<char> {
    seq!['w', 'e', 'r', 's', 'd', 'f']
}

/// The palette slot whose configured character is `ch`: the first match
/// in slot order, if any.
pub open spec fn spec_char2id(chars: Seq<char>, ch: char) -> Option<PaletteCellId> {
    if chars[0] == ch {
        Some(PaletteCellId::Id0)
    } else if chars[1] == ch {
        Some(PaletteCellId::Id1)
    } else if chars[2] == ch {
        Some(PaletteCellId::Id2)
    } else if chars[3] == ch {
        Some(PaletteCellId::Id3)
    } else if chars[4] == ch {
        Some(PaletteCellId::Id4)
    } else if chars[5] == ch {
        Some(PaletteCellId::Id5)
    } else {
        None
    }
}

/// Law (single source of truth): in the default table, the character
/// that names a palette slot in the `set` grammar is exactly the key
/// bound to selecting the same slot in Normal mode.
pub proof fn lemma_default_slot_keys_consistent()
    ensures
        forall|id: PaletteCellId|
            #[trigger] spec_lookup(
                default_bindings(),
                Key::Char(default_slot_chars()[id.spec_index()]),
            ) == Some(Command::Palette(id)),
{
    assert forall|id: PaletteCellId|
        #[trigger] spec_lookup(
            default_bindings(),
            Key::Char(default_slot_chars()[id.spec_index()]),
        ) == Some(Command::Palette(id)) by {
        reveal_with_fuel(spec_lookup, 11);
        match id {
            PaletteCellId::Id0 => {},
            PaletteCellId::Id1 => {},
            PaletteCellId::Id2 => {},
            PaletteCellId::Id3 => {},
            PaletteCellId::Id4 => {},
            PaletteCellId::Id5 => {},
        }
    }
}

/// The immutable Normal-mode key table: which command each key is bound
/// to, plus the character that stands for each palette slot in the `set`
/// command grammar. Built once at startup, never mutated.
#[derive(Clone, Eq, PartialEq, Debug)]
pub struct KeyConfig {
    config: Vec<(Key, Command)>,
    palette_id2char: [char; NUM_CELL],
}

impl KeyConfig {
    /// The key bindings, in lookup order.
    pub closed spec fn bindings(&self) -> Seq<(Key, Command)> {
        self.config@
    }

    /// The slot characters, in slot order.
    pub closed spec fn slot_chars(&self) -> Seq<char> {
        self.palette_id2char@
    }

    /// No key is bound twice, so the first match is the only one.
    pub open spec fn wf(&self) -> bool {
        forall|i: int, j: int|
            0 <= i < j < self.bindings().len() ==> self.bindings()[i].0 != self.bindings()[j].0
    }

    /// The character that names a palette slot in the `set` grammar.
    pub fn palette_cell_id2char(&self, id: PaletteCellId) -> (r: char)
        ensures
            r == self.slot_chars()[id.spec_index()],
    {
        self.palette_id2char[id.index()]
    }

    /// The palette slot named by `ch`, if any.
    pub fn char2palette_cell_id(&self, ch: char) -> (r: Option<PaletteCellId>)
        ensures
            r == spec_char2id(self.slot_chars(), ch),
    {
        if self.palette_id2char[0] == ch {
            Some(PaletteCellId::Id0)
        } else if self.palette_id2char[1] == ch {
            Some(PaletteCellId::Id1)
        } else if self.palette_id2char[2] == ch {
            Some(PaletteCellId::Id2)
        } else if self.palette_id2char[3] == ch {
            Some(PaletteCellId::Id3)
        } else if self.palette_id2char[4] == ch {
            Some(PaletteCellId::Id4)
        } else if self.palette_id2char[5] == ch {
            Some(PaletteCellId::Id5)
        } else {
            None
        }
    }

    /// The command bound to `key`, if any.
    pub fn get(&self, key: &Key) -> (r: Option<&Command>)
        ensures
            match r {
                Some(c) => spec_lookup(self.bindings(), *key) == Some(*c),
                None => spec_lookup(self.bindings(), *key) is None,
            },
    {
        let n = self.config.len();
        proof {
            assert(self.bindings().subrange(0, n as int) =~= self.bindings());
        }
        let mut i: usize = 0;
        while i < n
            invariant
                i <= n,
                n == self.bindings().len(),
                spec_lookup(self.bindings(), *key) == spec_lookup(
                    self.bindings().subrange(i as int, n as int),
                    *key,
                ),
            decreases n - i,
        {
            let pair = &self.config[i];
            proof {
                assert(self.bindings().subrange(i as int, n as int)[0] == self.bindings()[i as int]);
            }
            if pair.0 == *key {
                return Some(&pair.1);
            }
            proof {
                assert(self.bindings().subrange(i as int, n as int).drop_first() =~= self.bindings()
                    .subrange(i as int + 1, n as int));
            }
            i += 1;
        }
        None
    }
}

impl Default for KeyConfig {
    /// The fixed default table.
    fn default() -> (kc: Self)
        ensures
            kc.bindings() == default_bindings(),
            kc.slot_chars() == default_slot_chars(),
            kc.wf(),
    {
        let mut config: Vec<(Key, Command)> = Vec::new();
        config.push((Key::Char('h'), Command::Direction(Direction::Left)));
        config.push((Key::Char('j'), Command::Direction(Direction::Down)));
        config.push((Key::Char('k'), Command::Direction(Direction::Up)));
        config.push((Key::Char('l'), Command::Direction(Direction::Right)));
        config.push((Key::Char('w'), Command::Palette(PaletteCellId::Id0)));
        config.push((Key::Char('e'), Command::Palette(PaletteCellId::Id1)));
        config.push((Key::Char('r'), Command::Palette(PaletteCellId::Id2)));
        config.push((Key::Char('s'), Command::Palette(PaletteCellId::Id3)));
        config.push((Key::Char('d'), Command::Palette(PaletteCellId::Id4)));
        config.push((Key::Char('f'), Command::Palette(PaletteCellId::Id5)));
        proof {
            assert(config@ =~= default_bindings());
        }
        let kc = KeyConfig { config, palette_id2char: ['w', 'e', 'r', 's', 'd', 'f'] };
        proof {
            assert(kc.slot_chars() =~= default_slot_chars());
        }
        kc
    }
}

} // verus!
