//! The commands accepted once a location is known, their grammar and the
//! help listing.
use vstd::prelude::*;
use crate::text::{join_lines, texts, join};

verus! {

/// A command the user can give once a location is known.
#[derive(Debug, PartialEq, Eq, Structural, Clone, Copy)]
pub enum Command {
    ShowLocation,
    ResetLocation,
    GetWeather,
    Help,
}

/// The first index at or after `i` that holds `c`, or the length of `s`.
pub open spec fn find_from(s: Seq<char>, c: char, i: int) -> int
    decreases s.len() - i,
{
    if i < 0 || i >= s.len() {
        s.len() as int
    } else if s[i] == c {
        i
    } else {
        find_from(s, c, i + 1)
    }
}

/// The code of `c` with an ASCII capital read as its small letter.
pub open spec fn ascii_folded(c: char) -> u32 {
    if 65 <= (c as u32) <= 90 {
        (c as u32 + 32) as u32
    } else {
        c as u32
    }
}

/// `a` and `b` are equal once ASCII capitals are read as small letters.
pub open spec fn same_ignoring_ascii_case(a: Seq<char>, b: Seq<char>) -> bool {
    &&& a.len() == b.len()
    &&& forall|i: int| 0 <= i < a.len() ==> ascii_folded(#[trigger] a[i]) == ascii_folded(b[i])
}

/// The text before the first space: the command word with its optional
/// `@bot` part.
pub open spec fn command_word(s: Seq<char>) -> Seq<char> {
    s.take(find_from(s, ' ', 0))
}

/// The command word without its `@bot` part.
pub open spec fn command_name_part(word: Seq<char>) -> Seq<char> {
    word.take(find_from(word, '@', 0))
}

/// The bot name that the command word addresses, if it names one.
pub open spec fn addressed_bot(word: Seq<char>) -> Option<Seq<char>> {
    let at = find_from(word, '@', 0);
    if at < word.len() {
        let rest = word.skip(at + 1);
        Some(rest.take(find_from(rest, '@', 0)))
    } else {
        None
    }
}

/// The command spelled `name` (slash included), if any.
pub open spec fn command_named(name: Seq<char>) -> Option<Command> {
    if name == "/showlocation"@ {
        Some(Command::ShowLocation)
    } else if name == "/resetlocation"@ {
        Some(Command::ResetLocation)
    } else if name == "/getweather"@ {
        Some(Command::GetWeather)
    } else if name == "/help"@ {
        Some(Command::Help)
    } else {
        None
    }
}

/// The command that message text `s` gives to the bot named `bot`: the first
/// word is a slash and a command name, optionally followed by `@` and a name
/// equal to `bot` up to ASCII case; anything after the first space is ignored.
pub open spec fn parse_command(s: Seq<char>, bot: Seq<char>) -> Option<Command> {
    let word = command_word(s);
    match addressed_bot(word) {
        Some(name) if !same_ignoring_ascii_case(name, bot) => None,
        _ => command_named(command_name_part(word)),
    }
}

/// The heading of the help listing.
pub open spec fn help_heading() -> Seq<char> {
    "These commands are supported:"@
}

/// The help listing: the heading, an empty line, then one line per command.
pub open spec fn help_text() -> Seq<char> {
    join_lines(seq![help_heading(), Seq::empty()] + Command::all_spec().map_values(|c: Command| c.line_spec()))
}

impl Command {
    /// Every command, in the order of the help listing.
    pub open spec fn all_spec() -> Seq<Command> {
        seq![Command::ShowLocation, Command::ResetLocation, Command::GetWeather, Command::Help]
    }

    /// The command as typed, slash included.
    pub open spec fn name_spec(self) -> Seq<char> {
        match self {
            Command::ShowLocation => "/showlocation"@,
            Command::ResetLocation => "/resetlocation"@,
            Command::GetWeather => "/getweather"@,
            Command::Help => "/help"@,
        }
    }

    /// What the command does, in one line.
    pub open spec fn description_spec(self) -> Seq<char> {
        match self {
            Command::ShowLocation => "show the location I hold for you"@,
            Command::ResetLocation => "forget your location and ask for a new one"@,
            Command::GetWeather => "report the current weather at your location"@,
            Command::Help => "list these commands"@,
        }
    }

    /// The line of the help listing for the command.
    pub open spec fn line_spec(self) -> Seq<char> {
        self.name_spec() + " — "@ + self.description_spec()
    }

    /// Every command, in the order of the help listing.
    pub fn all() -> (r: Vec<Command>)
        ensures
            r@ == Command::all_spec(),
    {
        let r = vec![Command::ShowLocation, Command::ResetLocation, Command::GetWeather, Command::Help];
        assert(r@ =~= Command::all_spec());
        r
    }

    /// The command as typed, slash included.
    pub fn name(&self) -> (r: &'static str)
        ensures
            r@ == self.name_spec(),
    {
        match self {
            Command::ShowLocation => "/showlocation",
            Command::ResetLocation => "/resetlocation",
            Command::GetWeather => "/getweather",
            Command::Help => "/help",
        }
    }

    /// What the command does, in one line.
    pub fn description(&self) -> (r: &'static str)
        ensures
            r@ == self.description_spec(),
    {
        match self {
            Command::ShowLocation => "show the location I hold for you",
            Command::ResetLocation => "forget your location and ask for a new one",
            Command::GetWeather => "report the current weather at your location",
            Command::Help => "list these commands",
        }
    }

    /// The help listing, generated from the list of all commands.
    pub fn descriptions() -> (r: String)
        ensures
            r@ == help_text(),
    {
        let all = Command::all();
        let mut rows: Vec<String> = Vec::new();
        rows.push(String::from_str("These commands are supported:"));
        rows.push(String::new());
        let ghost head = seq![help_heading(), Seq::<char>::empty()];
        assert(texts(rows@) =~= head);
        let mut i: usize = 0;
        while i < all.len()
            invariant
                all@ == Command::all_spec(),
                i <= all@.len(),
                texts(rows@) == head + all@.take(i as int).map_values(|c: Command| c.line_spec()),
            decreases all@.len() - i,
        {
            let c = all[i];
            let mut line = String::from_str(c.name());
            line.append(" — ");
            line.append(c.description());
            let ghost before = rows@;
            rows.push(line);
            assert(all@.take(i + 1) =~= all@.take(i as int).push(c));
            assert(texts(rows@) =~= texts(before).push(line@));
            assert(head + all@.take(i + 1).map_values(|c: Command| c.line_spec()) =~= (head + all@.take(
                i as int,
            ).map_values(|c: Command| c.line_spec())).push(c.line_spec()));
            i = i + 1;
        }
        assert(all@.take(all@.len() as int) =~= all@);
        join(&rows)
    }

    /// The command that message text `text` gives to the bot named
    /// `bot_name`, or `None` when it gives none.
    pub fn parse(text: &str, bot_name: &str) -> (r: Option<Command>)
        ensures
            r == parse_command(text@, bot_name@),
    {
        let space = find_char(text, ' ');
        let word = text.substring_char(0, space);
        assert(word@ =~= command_word(text@));
        let at = find_char(word, '@');
        let name = word.substring_char(0, at);
        assert(name@ =~= command_name_part(word@));
        if at < word.unicode_len() {
            let rest = word.substring_char(at + 1, word.unicode_len());
            let end = find_char(rest, '@');
            let addressed = rest.substring_char(0, end);
            assert(rest@ =~= word@.skip(at + 1));
            assert(addressed@ =~= rest@.take(end as int));
            if !same_ignoring_case(addressed, bot_name) {
                return None;
            }
        }
        named(name)
    }
}

/// The first index of `c` in `s`, or the length of `s`.
fn find_char(s: &str, c: char) -> (r: usize)
    ensures
        r == find_from(s@, c, 0),
        r <= s@.len(),
{
    let n = s.unicode_len();
    let mut i: usize = 0;
    while i < n && s.get_char(i) != c
        invariant
            n == s@.len(),
            i <= n,
            find_from(s@, c, i as int) == find_from(s@, c, 0),
        decreases n - i,
    {
        i = i + 1;
    }
    i
}

/// `a` and `b` are equal up to ASCII case.
fn same_ignoring_case(a: &str, b: &str) -> (r: bool)
    ensures
        r == same_ignoring_ascii_case(a@, b@),
{
    let n = a.unicode_len();
    if n != b.unicode_len() {
        return false;
    }
    let mut i: usize = 0;
    while i < n
        invariant
            n == a@.len(),
            n == b@.len(),
            i <= n,
            forall|j: int| 0 <= j < i ==> ascii_folded(#[trigger] a@[j]) == ascii_folded(b@[j]),
        decreases n - i,
    {
        if fold(a.get_char(i)) != fold(b.get_char(i)) {
            return false;
        }
        i = i + 1;
    }
    true
}

fn fold(c: char) -> (r: u32)
    ensures
        r == ascii_folded(c),
{
    let v = c as u32;
    if 65 <= v && v <= 90 {
        v + 32
    } else {
        v
    }
}

/// The command spelled `name`, slash included.
fn named(name: &str) -> (r: Option<Command>)
    ensures
        r == command_named(name@),
{
    let n = String::from_str(name);
    if n == String::from_str("/showlocation") {
        Some(Command::ShowLocation)
    } else if n == String::from_str("/resetlocation") {
        Some(Command::ResetLocation)
    } else if n == String::from_str("/getweather") {
        Some(Command::GetWeather)
    } else if n == String::from_str("/help") {
        Some(Command::Help)
    } else {
        None
    }
}

} // verus!
