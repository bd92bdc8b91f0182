//! Media players that were paused for a recording and are resumed after it.
//!
//! The caller runs the scripts that pause and resume the players. What a
//! script printed is read here, and the script that resumes is written here.

use vstd::prelude::*;
use vstd::string::{StrSliceExecFns, StringExecFns};
use crate::text::{same_text, trim, trimmed};

verus! {

/// The players that were paused, by name.
pub struct PausedPlayers {
    pub players: Vec<String>,
}

/// The text of each string in a vector of strings.
pub open spec fn texts(strings: Seq<String>) -> Seq<Seq<char>> {
    strings.map_values(|s: String| s@)
}

/// The place of the first comma in `s`, or the length of `s` where it has
/// none.
pub open spec fn first_comma(s: Seq<char>) -> nat
    decreases s.len(),
{
    if s.len() == 0 || s[0] == ',' {
        0
    } else {
        1 + first_comma(s.skip(1))
    }
}

/// The items of a list written with commas: the pieces of `s` between its
/// commas, each without the white space at its ends, in order, the empty
/// ones left out.
pub open spec fn comma_items(s: Seq<char>) -> Seq<Seq<char>>
    decreases s.len(),
{
    let cut = first_comma(s);
    let item = trim(s.take(cut as int));
    let rest = if cut < s.len() {
        comma_items(s.skip((cut + 1) as int))
    } else {
        Seq::empty()
    };
    if item.len() > 0 {
        seq![item] + rest
    } else {
        rest
    }
}

/// The first comma is where a comma stands with none before it.
proof fn lemma_first_comma(s: Seq<char>, cut: nat)
    requires
        cut <= s.len(),
        forall|k: int| 0 <= k < cut ==> s[k] != ',',
        cut < s.len() ==> s[cut as int] == ',',
    ensures
        first_comma(s) == cut,
    decreases s.len(),
{
    if cut > 0 {
        let tail = s.skip(1);
        assert forall|k: int| 0 <= k < cut - 1 implies tail[k] != ',' by {
            assert(tail[k] == s[k + 1]);
        }
        lemma_first_comma(tail, (cut - 1) as nat);
    }
}

/// Reads a list written with commas: its items in order, each without the
/// white space at its ends; empty items do not count.
pub fn parse_comma_list(s: &str) -> (items: Vec<String>)
    ensures
        texts(items@) =~= comma_items(trim(s@)),
{
    let list = trimmed(s);
    let n = list.unicode_len();
    let mut items: Vec<String> = Vec::new();
    let mut pos: usize = 0;
    let mut done = false;
    assert(list@.skip(0) =~= list@);
    while !done
        invariant
            pos <= n,
            n == list@.len(),
            list@ == trim(s@),
            done ==> texts(items@) =~= comma_items(list@),
            !done ==> texts(items@) + comma_items(list@.skip(pos as int)) =~= comma_items(list@),
        decreases n - pos + (if done { 0int } else { 1int }),
    {
        let mut cut: usize = pos;
        while cut < n && list.get_char(cut) != ','
            invariant
                pos <= cut <= n,
                n == list@.len(),
                forall|k: int| pos <= k < cut ==> list@[k] != ',',
            decreases n - cut,
        {
            cut += 1;
        }
        let ghost waiting = list@.skip(pos as int);
        proof {
            assert forall|k: int| 0 <= k < cut - pos implies waiting[k] != ',' by {
                assert(waiting[k] == list@[pos + k]);
            }
            lemma_first_comma(waiting, (cut - pos) as nat);
            assert(waiting.take(cut - pos) =~= list@.subrange(pos as int, cut as int));
            if cut < n {
                assert(waiting.skip(cut - pos + 1) =~= list@.skip(cut + 1));
            }
        }
        let item = trimmed(list.substring_char(pos, cut));
        let ghost before = items@;
        if item.unicode_len() > 0 {
            items.push(String::from_str(item));
            assert(texts(items@) =~= texts(before) + seq![item@]);
        }
        if cut < n {
            pos = cut + 1;
        } else {
            done = true;
        }
    }
    items
}

/// The lines that make the player `name` play again; nothing for a name
/// that is none of the known players.
pub open spec fn resume_snippet(name: Seq<char>) -> Seq<char> {
    if name == "Music"@ {
        "try\n  tell application \"Music\"\n    if it is running then play\n  end tell\nend try\n"@
    } else if name == "Spotify"@ {
        "try\n  tell application \"Spotify\"\n    if it is running then play\n  end tell\nend try\n"@
    } else if name == "Books"@ {
        "try\n  with timeout of 1 seconds\n    tell application \"System Events\"\n      tell process \"Books\"\n        click menu item \"Play\" of menu \"Controls\" of menu bar 1\n      end tell\n    end tell\n  end timeout\nend try\n"@
    } else {
        Seq::empty()
    }
}

/// The script that makes `players` play again: the lines of each player in
/// order.
pub open spec fn resume_script_text(players: Seq<Seq<char>>) -> Seq<char>
    decreases players.len(),
{
    if players.len() == 0 {
        Seq::empty()
    } else {
        resume_script_text(players.drop_last()) + resume_snippet(players.last())
    }
}

/// The lines that make the player `name` play again.
fn resume_lines(name: &str) -> (lines: &'static str)
    ensures
        lines@ == resume_snippet(name@),
{
    if same_text(name, "Music") {
        "try\n  tell application \"Music\"\n    if it is running then play\n  end tell\nend try\n"
    } else if same_text(name, "Spotify") {
        "try\n  tell application \"Spotify\"\n    if it is running then play\n  end tell\nend try\n"
    } else if same_text(name, "Books") {
        "try\n  with timeout of 1 seconds\n    tell application \"System Events\"\n      tell process \"Books\"\n        click menu item \"Play\" of menu \"Controls\" of menu bar 1\n      end tell\n    end tell\n  end timeout\nend try\n"
    } else {
        proof {
            reveal_strlit("");
        }
        assert(""@ =~= Seq::<char>::empty());
        ""
    }
}

/// The script that makes `players` play again. It is empty where none of
/// them is a known player, and then there is nothing to run.
pub fn resume_script(players: &Vec<String>) -> (script: String)
    ensures
        script@ == resume_script_text(texts(players@)),
{
    let mut script = String::new();
    let mut i: usize = 0;
    while i < players.len()
        invariant
            i <= players.len(),
            script@ == resume_script_text(texts(players@.take(i as int))),
        decreases players.len() - i,
    {
        proof {
            let seen = texts(players@.take(i as int));
            let next = texts(players@.take(i + 1));
            assert(next.drop_last() =~= seen);
            assert(next.last() == players@[i as int]@);
        }
        script.append(resume_lines(players[i].as_str()));
        i += 1;
    }
    assert(players@.take(i as int) =~= players@);
    script
}

impl PausedPlayers {
    /// No player paused yet.
    pub fn new() -> (paused: PausedPlayers)
        ensures
            paused.players@.len() == 0,
    {
        PausedPlayers { players: Vec::new() }
    }

    /// Reads what a pausing script printed: the name of the player that it
    /// paused, or nothing but white space where it paused none. A name is
    /// added to the players without the white space at its ends.
    pub fn record(&mut self, output: &str)
        ensures
            texts(final(self).players@) =~= if trim(output@).len() > 0 {
                texts(old(self).players@).push(trim(output@))
            } else {
                texts(old(self).players@)
            },
    {
        let name = trimmed(output);
        if name.unicode_len() > 0 {
            self.players.push(String::from_str(name));
        }
    }

    /// Whether no player was paused. The script that looks for a player of
    /// last resort runs only then.
    pub fn is_empty(&self) -> (empty: bool)
        ensures
            empty == (self.players@.len() == 0),
    {
        self.players.len() == 0
    }
}

} // verus!
