use vstd::prelude::*;

use crate::metadata::{min_sec, FileMetadata};
use crate::text::{decimal, decimal_string, two_digit_string, two_digits};

verus! {

/// Which view the terminal shows.
#[derive(Clone, Copy, Debug, PartialEq, Eq, Structural)]
pub enum Tab {
    Playlist,
    Browser,
}

/// Whether the program goes on.
#[derive(Clone, Copy, Debug, PartialEq, Eq, Structural)]
pub enum State {
    Running,
    Quit,
}

/// Whether the program goes on.
pub fn is_running(state: State) -> (r: bool)
    ensures
        r == (state == State::Running),
{
    state == State::Running
}

/// The line that describes the playlist's size.
pub open spec fn playlist_status_text(len: nat) -> Seq<char> {
    if len == 0 {
        "playlist is empty"@
    } else if len == 1 {
        "playlist (1 item)"@
    } else {
        "playlist ("@ + decimal(len) + " items)"@
    }
}

/// Describes the playlist's size.
pub fn playlist_status(len: usize) -> (r: String)
    ensures
        r@ == playlist_status_text(len as nat),
{
    if len == 0 {
        String::from_str("playlist is empty")
    } else if len == 1 {
        String::from_str("playlist (1 item)")
    } else {
        let mut s = String::from_str("playlist (");
        let n = decimal_string(len as u64);
        s.append(n.as_str());
        s.append(" items)");
        s
    }
}

/// The transport's state in a word.
pub open spec fn transport_word(idle: bool, paused: bool) -> Seq<char> {
    if idle {
        "stopped"@
    } else if paused {
        "paused"@
    } else {
        "playing"@
    }
}

/// The transport's state in a word.
pub fn transport_status(idle: bool, paused: bool) -> (r: String)
    ensures
        r@ == transport_word(idle, paused),
{
    if idle {
        String::from_str("stopped")
    } else if paused {
        String::from_str("paused")
    } else {
        String::from_str("playing")
    }
}

/// The position as minutes and two digits of seconds, a slash, and the
/// track's duration as its metadata shows it.
pub fn position_display(position_secs: u64, data: &FileMetadata) -> (r: String)
    ensures
        ({
            let (m, s) = min_sec(position_secs as nat);
            let total = data.duration_text();
            r@ == decimal(m) + seq![':'] + two_digits(s) + seq!['/'] + total
        }),
{
    let mut out = decimal_string(position_secs / 60);
    out.append(":");
    let secs = two_digit_string(position_secs % 60);
    out.append(secs.as_str());
    out.append("/");
    let total = data.display_duration_display();
    out.append(total.as_str());
    proof {
        reveal_strlit(":");
        reveal_strlit("/");
    }
    out
}

/// `path` with a leading `home` shortened to `~`.
pub open spec fn display_path_text(path: Seq<char>, home: Option<Seq<char>>) -> Seq<char> {
    match home {
        Some(h) => if h.len() <= path.len() && path.take(h.len() as int) == h {
            seq!['~'] + path.skip(h.len() as int)
        } else {
            path
        },
        None => path,
    }
}

/// `path` with a leading `home` shortened to `~`.
pub fn format_display_path(path: &String, home: &Option<String>) -> (r: String)
    ensures
        r@ == display_path_text(path@, match home {
            Some(h) => Some(h@),
            None => None,
        }),
{
    match home {
        Some(h) => {
            let p = path.as_str();
            let hs = h.as_str();
            let n = p.unicode_len();
            let k = hs.unicode_len();
            if k > n {
                return path.clone();
            }
            let mut i: usize = 0;
            while i < k
                invariant
                    *home == Some(*h),
                    k == h@.len(),
                    n == path@.len(),
                    k <= n,
                    0 <= i <= k,
                    p@ == path@,
                    hs@ == h@,
                    forall|j: int| 0 <= j < i ==> path@[j] == h@[j],
                decreases k - i,
            {
                if p.get_char(i) != hs.get_char(i) {
                    assert(path@.take(k as int)[i as int] == path@[i as int]);
                    assert(path@.take(k as int) != h@);
                    return path.clone();
                }
                i = i + 1;
            }
            assert(path@.take(k as int) =~= h@);
            let rest = p.substring_char(k, n);
            let mut s = String::from_str("~");
            proof {
                reveal_strlit("~");
            }
            s.append(rest);
            assert(s@ =~= seq!['~'] + path@.skip(k as int));
            s
        },
        None => path.clone(),
    }
}

/// The cursor one entry up, wrapping to the last entry from the first.
pub open spec fn wrapped_up(selected: nat, len: nat) -> nat {
    if len == 0 {
        selected
    } else if selected == 0 {
        (len - 1) as nat
    } else {
        (selected - 1) as nat
    }
}

/// The cursor one entry down, wrapping to the first entry from the last.
pub open spec fn wrapped_down(selected: nat, len: nat) -> nat {
    if len == 0 {
        selected
    } else if selected + 1 < len {
        selected + 1
    } else {
        0
    }
}

/// Moves a cursor over `len` entries up one, wrapping around.
pub fn cursor_up(selected: usize, len: usize) -> (r: usize)
    ensures
        r == wrapped_up(selected as nat, len as nat),
{
    if len == 0 {
        selected
    } else if selected == 0 {
        len - 1
    } else {
        selected - 1
    }
}

/// Moves a cursor over `len` entries down one, wrapping around.
pub fn cursor_down(selected: usize, len: usize) -> (r: usize)
    ensures
        r == wrapped_down(selected as nat, len as nat),
{
    if len == 0 {
        selected
    } else if selected < len - 1 {
        selected + 1
    } else {
        0
    }
}

} // verus!
