use vstd::prelude::*;

verus! {

/// The spells a typed name can stand for.
#[derive(Clone, Copy, Debug, PartialEq, Eq, Structural)]
pub enum SpellType {
    Fireball,
    Blink,
    Shield,
    Exit,
    Spellbook,
    Unknown,
}

/// A spell that was cast, with the name as typed.
#[derive(Clone, Debug)]
pub struct SpellCastEvent {
    pub spell_type: SpellType,
    pub spell_name: String,
}

/// The characters typed so far and whether spell input is open.
#[derive(Clone, Debug)]
pub struct SpellStack {
    pub characters: Vec<char>,
    pub active: bool,
}

/// The keys of the spell input that went down this frame.
#[derive(Clone, Copy, Debug, PartialEq, Eq, Structural)]
pub struct SpellKeys {
    pub space: bool,
    pub enter: bool,
    pub escape: bool,
    pub backspace: bool,
}

/// What `str::to_lowercase` makes of a string.
pub uninterp spec fn lowercase_of(s: Seq<char>) -> Seq<char>;

/// Relies on `str::to_lowercase` for the lowercase form of a spell name.
#[verifier::external_body]
fn to_lowercase(s: &str) -> (r: String)
    ensures
        r@ == lowercase_of(s@),
{
    s.to_lowercase()
}

/// Relies on collecting chars into a `String` (std's `FromIterator<char>`),
/// which keeps them in order.
#[verifier::external_body]
fn string_from_chars(chars: &Vec<char>) -> (r: String)
    ensures
        r@ == chars@,
{
    chars.iter().collect()
}

/// A control character: Unicode general category Cc, which is U+0000 to
/// U+001F and U+007F to U+009F.
pub open spec fn is_control_spec(c: char) -> bool {
    (c as u32) <= 0x1f || (0x7f <= (c as u32) && (c as u32) <= 0x9f)
}

/// Whether `c` is a control character.
pub fn is_control(c: char) -> (r: bool)
    ensures
        r == is_control_spec(c),
{
    let u = c as u32;
    u <= 0x1f || (0x7f <= u && u <= 0x9f)
}

/// The spell a lowercase name stands for.
pub open spec fn spell_named(name: Seq<char>) -> SpellType {
    if name == "fireball"@ {
        SpellType::Fireball
    } else if name == "blink"@ {
        SpellType::Blink
    } else if name == "shield"@ {
        SpellType::Shield
    } else if name == "exit"@ {
        SpellType::Exit
    } else if name == "spellbook"@ {
        SpellType::Spellbook
    } else {
        SpellType::Unknown
    }
}

/// The characters of `s` that are not control characters, in order.
pub open spec fn printable(s: Seq<char>) -> Seq<char>
    decreases s.len(),
{
    if s.len() == 0 {
        Seq::empty()
    } else if is_control_spec(s.last()) {
        printable(s.drop_last())
    } else {
        printable(s.drop_last()).push(s.last())
    }
}

/// Stack contents and open flag after a toggle: opening clears the stack.
pub open spec fn toggled(chars: Seq<char>, active: bool) -> (Seq<char>, bool) {
    if active {
        (chars, false)
    } else {
        (Seq::empty(), true)
    }
}

/// One frame of spell input, over the typed characters and the open flag.
/// Space toggles input; Enter opens it when closed. While it is open, Escape
/// toggles it, Backspace drops the last character, and Enter casts the typed
/// name when there is one and toggles input. While open, the printable
/// characters typed this frame are added at the end. The result is the new
/// stack, the new flag, and the spell cast with its name, if any.
pub open spec fn spell_input(
    chars: Seq<char>,
    active: bool,
    keys: SpellKeys,
    typed: Seq<char>,
) -> (Seq<char>, bool, Option<(SpellType, Seq<char>)>) {
    let (c1, a1) = if keys.space {
        toggled(chars, active)
    } else {
        (chars, active)
    };
    let (c2, a2) = if !a1 && keys.enter {
        toggled(c1, a1)
    } else {
        (c1, a1)
    };
    if !a2 {
        (c2, a2, None)
    } else {
        let (c3, a3) = if keys.escape {
            toggled(c2, a2)
        } else {
            (c2, a2)
        };
        let c4 = if keys.backspace && c3.len() > 0 {
            c3.drop_last()
        } else {
            c3
        };
        if keys.enter && c4.len() > 0 {
            let (c5, a5) = toggled(c4, a3);
            (c5 + printable(typed), a5, Some((spell_named(lowercase_of(c4)), c4)))
        } else {
            (c4 + printable(typed), a3, None)
        }
    }
}

/// The spell a typed name stands for, whatever its letter case.
pub fn identify_spell(input: &str) -> (r: SpellType)
    ensures
        r == spell_named(lowercase_of(input@)),
{
    let lower = to_lowercase(input);
    spell_from_lowercase(&lower)
}

/// The spell a name already in lowercase stands for.
pub fn spell_from_lowercase(name: &String) -> (r: SpellType)
    ensures
        r == spell_named(name@),
{
    if *name == String::from_str("fireball") {
        SpellType::Fireball
    } else if *name == String::from_str("blink") {
        SpellType::Blink
    } else if *name == String::from_str("shield") {
        SpellType::Shield
    } else if *name == String::from_str("exit") {
        SpellType::Exit
    } else if *name == String::from_str("spellbook") {
        SpellType::Spellbook
    } else {
        SpellType::Unknown
    }
}

impl Default for SpellStack {
    fn default() -> (r: SpellStack)
        ensures
            r.characters@ == Seq::<char>::empty(),
            !r.active,
    {
        SpellStack { characters: Vec::new(), active: false }
    }
}

impl SpellStack {
    pub fn push(&mut self, c: char)
        ensures
            final(self).characters@ == old(self).characters@.push(c),
            final(self).active == old(self).active,
    {
        self.characters.push(c);
    }

    /// Drops the last character, if there is one.
    pub fn pop(&mut self)
        ensures
            final(self).characters@ == (if old(self).characters@.len() > 0 {
                old(self).characters@.drop_last()
            } else {
                old(self).characters@
            }),
            final(self).active == old(self).active,
    {
        let _ = self.characters.pop();
    }

    pub fn clear(&mut self)
        ensures
            final(self).characters@ == Seq::<char>::empty(),
            final(self).active == old(self).active,
    {
        self.characters.clear();
    }

    /// The typed characters as a string.
    pub fn as_string(&self) -> (r: String)
        ensures
            r@ == self.characters@,
    {
        string_from_chars(&self.characters)
    }

    /// Opens or closes spell input; opening starts from an empty stack.
    pub fn toggle(&mut self)
        ensures
            (final(self).characters@, final(self).active) == toggled(
                old(self).characters@,
                old(self).active,
            ),
    {
        self.active = !self.active;
        if self.active {
            self.clear();
        }
    }

    pub fn is_active(&self) -> (r: bool)
        ensures
            r == self.active,
    {
        self.active
    }

    /// Adds the printable characters of `typed`, in order.
    pub fn push_printable(&mut self, typed: &Vec<char>)
        ensures
            final(self).characters@ == old(self).characters@ + printable(typed@),
            final(self).active == old(self).active,
    {
        let mut i: usize = 0;
        while i < typed.len()
            invariant
                i <= typed@.len(),
                self.characters@ == old(self).characters@ + printable(typed@.take(i as int)),
                self.active == old(self).active,
            decreases typed@.len() - i,
        {
            let c = typed[i];
            assert(typed@.take(i as int + 1).drop_last() == typed@.take(i as int));
            assert(typed@.take(i as int + 1).last() == c);
            if !is_control(c) {
                self.push(c);
            }
            i = i + 1;
        }
        assert(typed@.take(typed@.len() as int) == typed@);
    }
}

/// Runs one frame of spell input; see `spell_input`. A cast spell comes back
/// with its type and the name as typed.
pub fn handle_spell_input(stack: &mut SpellStack, keys: SpellKeys, typed: &Vec<char>) -> (r:
    Option<SpellCastEvent>)
    ensures
        ({
            let (chars, active, cast) = spell_input(
                old(stack).characters@,
                old(stack).active,
                keys,
                typed@,
            );
            &&& final(stack).characters@ == chars
            &&& final(stack).active == active
            &&& match cast {
                Some((kind, name)) => r matches Some(e) && e.spell_type == kind && e.spell_name@
                    == name,
                None => r is None,
            }
        }),
{
    if keys.space {
        stack.toggle();
    }
    if !stack.is_active() && keys.enter {
        stack.toggle();
    }
    if !stack.is_active() {
        return None;
    }
    if keys.escape {
        stack.toggle();
    }
    if keys.backspace && stack.characters.len() > 0 {
        stack.pop();
    }
    let mut cast: Option<SpellCastEvent> = None;
    if keys.enter {
        let spell_name = stack.as_string();
        if stack.characters.len() > 0 {
            let spell_type = identify_spell(spell_name.as_str());
            cast = Some(SpellCastEvent { spell_type, spell_name });
            stack.toggle();
        }
    }
    stack.push_printable(typed);
    cast
}

} // verus!
