//! The comments of the configuration file: each setting of a serialized
//! configuration gets, on the lines above it, a note that says what it is.

use crate::search::{first_where, lemma_first_where_is};
use vstd::prelude::*;

verus! {

/// How many settings have a note.
pub const NOTES: usize = 17;

/// The notes, in the order in which they are tried: the text that a line
/// starts with, and the comment lines that go above such a line.
pub open spec fn spec_note(index: int) -> (Seq<char>, Seq<char>) {
    if index == 0 {
        ("packet_timeout"@, "# How long the server should wait before disconnecting a player, in seconds.\n"@)
    } else if index == 1 {
        ("ping_spacing"@, "# How often the server sends pings to clients, in seconds.\n"@)
    } else if index == 2 {
        ("default_world"@, "# The world that players first connect to when joining.\n"@)
    } else if index == 3 {
        ("operators"@, "# A list of usernames that have operator permissions.\n"@)
    } else if index == 4 {
        ("kept_salts"@, "# How many \"salts\" to keep in memory.\n# Salts are used to verify a user's key.\n# If this is set to 0, then users will not be verified.\n"@)
    } else if index == 5 {
        ("name"@, "# The server's displayed name.\n"@)
    } else if index == 6 {
        ("heartbeat_url"@, "# The URL to ping for heartbeat pings.\n# \n# If this is left blank, then no heartbeat pings will be sent.\n# If this is left blank AND kept_salts is above 0,\n# the program will exit with an error,\n# as it will be impossible for users to join.\n"@)
    } else if index == 7 {
        ("heartbeat_spacing"@, "# How often heartbeat pings will be sent, in seconds.\n"@)
    } else if index == 8 {
        ("heartbeat_timeout"@, "# How long the server will wait to hear back from the heartbeat server, in seconds.\n"@)
    } else if index == 9 {
        ("ip"@, "# The IP to listen for connections on.\n"@)
    } else if index == 10 {
        ("port"@, "# The port to host the server on.\n"@)
    } else if index == 11 {
        ("max_players"@, "# The maximum amount of players on the server.\n"@)
    } else if index == 12 {
        ("public"@, "# Whether the server will show as public on the heartbeat URLs corresponding server list.\n"@)
    } else if index == 13 {
        ("motd"@, "# The server's MOTD.\n"@)
    } else if index == 14 {
        ("max_message_length"@, "# The maximum length of a sent message. Messages above this threshold will be clipped.\n"@)
    } else if index == 15 {
        ("[banned_ips]"@, "# A mapping of IPs to ban reasons.\n"@)
    } else {
        ("[banned_users]"@, "# A mapping of usernames to ban reasons.\n"@)
    }
}

/// The note at the given place: the text that a line starts with, and the
/// comment lines that go above such a line.
pub fn note(index: usize) -> (pair: (&'static str, &'static str))
    requires
        index < NOTES,
    ensures
        pair.0@ == spec_note(index as int).0,
        pair.1@ == spec_note(index as int).1,
{
    if index == 0 {
        ("packet_timeout", "# How long the server should wait before disconnecting a player, in seconds.\n")
    } else if index == 1 {
        ("ping_spacing", "# How often the server sends pings to clients, in seconds.\n")
    } else if index == 2 {
        ("default_world", "# The world that players first connect to when joining.\n")
    } else if index == 3 {
        ("operators", "# A list of usernames that have operator permissions.\n")
    } else if index == 4 {
        ("kept_salts", "# How many \"salts\" to keep in memory.\n# Salts are used to verify a user's key.\n# If this is set to 0, then users will not be verified.\n")
    } else if index == 5 {
        ("name", "# The server's displayed name.\n")
    } else if index == 6 {
        ("heartbeat_url", "# The URL to ping for heartbeat pings.\n# \n# If this is left blank, then no heartbeat pings will be sent.\n# If this is left blank AND kept_salts is above 0,\n# the program will exit with an error,\n# as it will be impossible for users to join.\n")
    } else if index == 7 {
        ("heartbeat_spacing", "# How often heartbeat pings will be sent, in seconds.\n")
    } else if index == 8 {
        ("heartbeat_timeout", "# How long the server will wait to hear back from the heartbeat server, in seconds.\n")
    } else if index == 9 {
        ("ip", "# The IP to listen for connections on.\n")
    } else if index == 10 {
        ("port", "# The port to host the server on.\n")
    } else if index == 11 {
        ("max_players", "# The maximum amount of players on the server.\n")
    } else if index == 12 {
        ("public", "# Whether the server will show as public on the heartbeat URLs corresponding server list.\n")
    } else if index == 13 {
        ("motd", "# The server's MOTD.\n")
    } else if index == 14 {
        ("max_message_length", "# The maximum length of a sent message. Messages above this threshold will be clipped.\n")
    } else if index == 15 {
        ("[banned_ips]", "# A mapping of IPs to ban reasons.\n")
    } else {
        ("[banned_users]", "# A mapping of usernames to ban reasons.\n")
    }
}

/// The texts that the notes look for, in order.
pub open spec fn prefixes() -> Seq<Seq<char>> {
    Seq::new(NOTES as nat, |index: int| spec_note(index).0)
}

/// Whether a line starts with a text.
pub open spec fn starts_with(line: Seq<char>, prefix: Seq<char>) -> bool {
    prefix.len() <= line.len() && line.take(prefix.len() as int) == prefix
}

/// The place of the first note whose text the line starts with, or the
/// number of notes where there is none.
pub open spec fn note_for(line: Seq<char>) -> int {
    first_where(prefixes(), |prefix: Seq<char>| starts_with(line, prefix))
}

/// Whether a text names a table: it starts with an opening bracket.
pub open spec fn is_table(prefix: Seq<char>) -> bool {
    prefix.len() > 0 && prefix[0] == '['
}

/// A line as it stands in the documented text: under its note, if it has
/// one, and followed by an empty line unless the note is that of a table.
pub open spec fn documented_line(line: Seq<char>) -> Seq<char> {
    let found = note_for(line);
    if found < NOTES {
        let (prefix, comment) = spec_note(found);
        if is_table(prefix) {
            comment + line + "\n"@
        } else {
            comment + line + "\n"@ + "\n"@
        }
    } else {
        line + "\n"@
    }
}

/// Where the first line of a text ends: at its first line feed, or at the
/// end of the text.
pub open spec fn line_end(text: Seq<char>) -> int {
    first_where(text, |glyph: char| glyph == '\n')
}

/// A line without the carriage return at its end, if it has one.
pub open spec fn without_return(line: Seq<char>) -> Seq<char> {
    if line.len() > 0 && line.last() == '\r' {
        line.drop_last()
    } else {
        line
    }
}

/// The documented text: every line of the text, as `documented_line` gives
/// it. Lines end at a line feed, or at a carriage return and a line feed;
/// what stands behind the last line feed is a line too, unless it is empty.
pub open spec fn documented(text: Seq<char>) -> Seq<char>
    decreases text.len(),
{
    let end = line_end(text);
    if text.len() == 0 {
        Seq::empty()
    } else if 0 <= end < text.len() {
        documented_line(without_return(text.take(end))) + documented(text.skip(end + 1))
    } else {
        documented_line(text)
    }
}

/// Whether the characters of `text` from `from` to `to` start with
/// `prefix`.
fn starts_with_at(text: &str, from: usize, to: usize, prefix: &str) -> (found: bool)
    requires
        from <= to <= text@.len(),
    ensures
        found == starts_with(text@.subrange(from as int, to as int), prefix@),
{
    let length = prefix.unicode_len();
    if length > to - from {
        return false;
    }
    let mut index: usize = 0;
    while index < length
        invariant
            index <= length,
            length == prefix@.len(),
            from + length <= to <= text@.len(),
            forall|i: int| 0 <= i < index ==> text@[from + i] == prefix@[i],
        decreases length - index,
    {
        if text.get_char(from + index) != prefix.get_char(index) {
            assert(text@.subrange(from as int, to as int).take(length as int)[index as int]
                != prefix@[index as int]);
            return false;
        }
        index = index + 1;
    }
    assert(text@.subrange(from as int, to as int).take(length as int) =~= prefix@);
    true
}

/// Appends the characters of `text` from `from` to `to`, as a line of the
/// documented text, to `output`.
fn document_line(text: &str, from: usize, to: usize, output: &mut String)
    requires
        from <= to <= text@.len(),
    ensures
        final(output)@ == old(output)@ + documented_line(text@.subrange(from as int, to as int)),
{
    let ghost line = text@.subrange(from as int, to as int);
    let ghost wanted = |prefix: Seq<char>| starts_with(line, prefix);
    let mut index: usize = 0;
    while index < NOTES
        invariant
            index <= NOTES,
            from <= to <= text@.len(),
            line == text@.subrange(from as int, to as int),
            wanted == |prefix: Seq<char>| starts_with(line, prefix),
            *output == *old(output),
            forall|i: int| 0 <= i < index ==> !wanted(#[trigger] prefixes()[i]),
        decreases NOTES - index,
    {
        let (prefix, comment) = note(index);
        if starts_with_at(text, from, to, prefix) {
            proof {
                lemma_first_where_is(prefixes(), wanted, index as int);
            }
            let table = prefix.unicode_len() > 0 && prefix.get_char(0) == '[';
            output.append(comment);
            output.append(text.substring_char(from, to));
            output.append("\n");
            if !table {
                output.append("\n");
            }
            assert(output@ =~= old(output)@ + documented_line(line));
            return;
        }
        index = index + 1;
    }
    proof {
        lemma_first_where_is(prefixes(), wanted, NOTES as int);
    }
    output.append(text.substring_char(from, to));
    output.append("\n");
    assert(output@ =~= old(output)@ + documented_line(line));
}

/// Puts the notes into a serialized configuration: above every line that
/// starts with the name of a setting stand the comment lines of that
/// setting, and below it an empty line, unless the line opens a table.
pub fn annotate(text: &str) -> (output: String)
    ensures
        output@ == documented(text@),
{
    let length = text.unicode_len();
    let mut output = String::new();
    let mut from: usize = 0;
    assert(text@.skip(0) =~= text@);
    while from < length
        invariant
            from <= length,
            length == text@.len(),
            output@ + documented(text@.skip(from as int)) == documented(text@),
        decreases length - from,
    {
        let ghost rest = text@.skip(from as int);
        let ghost before = output@;
        let mut to: usize = from;
        while to < length && text.get_char(to) != '\n'
            invariant
                from <= to <= length,
                length == text@.len(),
                forall|i: int| from <= i < to ==> text@[i] != '\n',
            decreases length - to,
        {
            to = to + 1;
        }
        proof {
            lemma_first_where_is(rest, |glyph: char| glyph == '\n', to - from);
        }
        if to < length {
            let kept: usize = if to > from && text.get_char(to - 1) == '\r' {
                (to - 1) as usize
            } else {
                to
            };
            assert(text@.subrange(from as int, kept as int) =~= without_return(
                rest.take(to - from),
            ));
            document_line(text, from, kept, &mut output);
            assert(rest.skip(to - from + 1) =~= text@.skip(to + 1));
            assert(output@ + documented(text@.skip(to + 1)) =~= before + documented(rest));
            from = to + 1;
        } else {
            assert(text@.subrange(from as int, to as int) =~= rest);
            document_line(text, from, to, &mut output);
            assert(text@.skip(length as int) =~= Seq::<char>::empty());
            assert(output@ + documented(text@.skip(length as int)) =~= before + documented(rest));
            from = length;
        }
    }
    assert(text@.skip(length as int) =~= Seq::<char>::empty());
    assert(output@ + documented(text@.skip(length as int)) =~= output@);
    output
}

} // verus!
