//! Quoting of strings for a POSIX shell, and the part of the shell's reading
//! of a word against which the quoting is proved.

use crate::text::string_views;
use vstd::prelude::*;

verus! {

/// What stands for one character inside single quotes: a single quote is
/// written by closing the quotes, escaping a quote and opening them again;
/// every other character is written as it is.
pub open spec fn escape_char(c: char) -> Seq<char> {
    if c == '\'' {
        seq!['\'', '\\', '\'', '\'']
    } else {
        seq![c]
    }
}

/// The characters of a string, each as [`escape_char`] writes it.
pub open spec fn escape_chars(s: Seq<char>) -> Seq<char>
    decreases s.len(),
{
    if s.len() == 0 {
        Seq::<char>::empty()
    } else {
        escape_char(s.first()) + escape_chars(s.drop_first())
    }
}

/// A string between single quotes, with its own single quotes escaped.
pub open spec fn shell_escaped(s: Seq<char>) -> Seq<char> {
    seq!['\''] + escape_chars(s) + seq!['\'']
}

/// The escaped forms of the arguments, separated by single spaces.
pub open spec fn shell_escaped_args(args: Seq<Seq<char>>) -> Seq<char>
    decreases args.len(),
{
    if args.len() == 0 {
        Seq::<char>::empty()
    } else if args.len() == 1 {
        shell_escaped(args[0])
    } else {
        shell_escaped(args.first()) + seq![' '] + shell_escaped_args(args.drop_first())
    }
}

/// How a POSIX shell splits a line into words and what each word stands
/// for, for lines made of single-quoted parts, characters escaped by a
/// backslash, and blanks between the words.
///
/// Inside single quotes every character up to the closing quote stands for
/// itself. Outside them a backslash makes the next character stand for
/// itself, a backslash before a newline is dropped together with it, and a
/// space or a tab ends the word. The result is `None` where the quotes are
/// not closed, where a backslash ends the line, and where the line holds any
/// other character outside quotes: such lines are not described here.
pub open spec fn shell_words(line: Seq<char>) -> Option<Seq<Seq<char>>> {
    read_words(line, false, None)
}

/// The words of the rest of a line. `quoted` says whether reading is inside
/// single quotes; `word` holds what was read of the current word, and is
/// `None` between words.
pub open spec fn read_words(line: Seq<char>, quoted: bool, word: Option<Seq<char>>) -> Option<
    Seq<Seq<char>>,
>
    decreases line.len(),
{
    let so_far = match word {
        Some(w) => w,
        None => Seq::<char>::empty(),
    };
    if line.len() == 0 {
        if quoted {
            None
        } else {
            match word {
                Some(w) => Some(seq![w]),
                None => Some(Seq::<Seq<char>>::empty()),
            }
        }
    } else if quoted {
        if line[0] == '\'' {
            read_words(line.drop_first(), false, Some(so_far))
        } else {
            read_words(line.drop_first(), true, Some(so_far.push(line[0])))
        }
    } else if line[0] == '\'' {
        read_words(line.drop_first(), true, Some(so_far))
    } else if line[0] == ' ' || line[0] == '\t' {
        match word {
            Some(w) => match read_words(line.drop_first(), false, None) {
                Some(words) => Some(seq![w] + words),
                None => None,
            },
            None => read_words(line.drop_first(), false, None),
        }
    } else if line[0] == '\\' && line.len() >= 2 {
        if line[1] == '\n' {
            read_words(line.skip(2), false, word)
        } else {
            read_words(line.skip(2), false, Some(so_far.push(line[1])))
        }
    } else {
        None
    }
}

/// Escaping distributes over appending a character.
pub proof fn lemma_escape_chars_push(s: Seq<char>, c: char)
    ensures
        escape_chars(s.push(c)) == escape_chars(s) + escape_char(c),
    decreases s.len(),
{
    if s.len() == 0 {
        let one = s.push(c);
        assert(one.drop_first() =~= Seq::<char>::empty());
        assert(escape_chars(one.drop_first()) =~= Seq::<char>::empty());
        assert(one.first() == c);
        assert(escape_chars(s) =~= Seq::<char>::empty());
        assert(escape_chars(one) =~= escape_chars(s) + escape_char(c));
    } else {
        lemma_escape_chars_push(s.drop_first(), c);
        assert(s.push(c).drop_first() =~= s.drop_first().push(c));
        assert(s.push(c).first() == s.first());
        assert(escape_chars(s.push(c)) =~= escape_chars(s) + escape_char(c));
    }
}

/// Joining distributes over appending an argument.
pub proof fn lemma_shell_escaped_args_push(args: Seq<Seq<char>>, last: Seq<char>)
    ensures
        shell_escaped_args(args.push(last)) == (if args.len() == 0 {
            shell_escaped(last)
        } else {
            shell_escaped_args(args) + seq![' '] + shell_escaped(last)
        }),
    decreases args.len(),
{
    let all = args.push(last);
    if args.len() == 0 {
        assert(all[0] == last);
    } else {
        let rest = args.drop_first();
        lemma_shell_escaped_args_push(rest, last);
        assert(all.drop_first() =~= rest.push(last));
        assert(all.first() == args.first());
        if args.len() == 1 {
            assert(rest.len() == 0);
            assert(args[0] == args.first());
            assert(shell_escaped_args(all) =~= shell_escaped_args(args) + seq![' ']
                + shell_escaped(last));
        } else {
            assert(shell_escaped_args(all) =~= shell_escaped_args(args) + seq![' ']
                + shell_escaped(last));
        }
    }
}

/// Read from inside single quotes, the escaped characters of a string and
/// the closing quote add the string to the current word, and reading goes
/// on behind the quote.
pub proof fn lemma_escaped_chars_read_back(s: Seq<char>, rest: Seq<char>, word: Seq<char>)
    ensures
        read_words(escape_chars(s) + seq!['\''] + rest, true, Some(word)) == read_words(
            rest,
            false,
            Some(word + s),
        ),
    decreases s.len(),
{
    let line = escape_chars(s) + seq!['\''] + rest;
    if s.len() == 0 {
        assert(line =~= seq!['\''] + rest);
        assert(line.drop_first() =~= rest);
        assert(word + s =~= word);
    } else {
        let c = s.first();
        let tail = escape_chars(s.drop_first()) + seq!['\''] + rest;
        assert(line =~= escape_char(c) + tail);
        if c == '\'' {
            let after_close = line.drop_first();
            assert(after_close =~= seq!['\\', '\'', '\''] + tail);
            assert(read_words(line, true, Some(word)) == read_words(
                after_close,
                false,
                Some(word),
            ));
            assert(after_close[0] == '\\' && after_close[1] == '\'');
            let after_escape = after_close.skip(2);
            assert(after_escape =~= seq!['\''] + tail);
            assert(read_words(after_close, false, Some(word)) == read_words(
                after_escape,
                false,
                Some(word.push('\'')),
            ));
            assert(after_escape.drop_first() =~= tail);
            assert(read_words(after_escape, false, Some(word.push('\''))) == read_words(
                tail,
                true,
                Some(word.push('\'')),
            ));
        } else {
            assert(line[0] == c);
            assert(line.drop_first() =~= tail);
        }
        lemma_escaped_chars_read_back(s.drop_first(), rest, word.push(c));
        assert(word.push(c) + s.drop_first() =~= word + s);
    }
}

/// Between words, the escaped form of a string is read as the start of a
/// word that holds the string so far.
pub proof fn lemma_escaped_starts_word(s: Seq<char>, rest: Seq<char>)
    ensures
        read_words(shell_escaped(s) + rest, false, None) == read_words(rest, false, Some(s)),
{
    let line = shell_escaped(s) + rest;
    assert(line[0] == '\'');
    assert(line.drop_first() =~= escape_chars(s) + seq!['\''] + rest);
    lemma_escaped_chars_read_back(s, rest, Seq::<char>::empty());
    assert(Seq::<char>::empty() + s =~= s);
}

/// A shell that reads the escaped form of a string gets one word, and the
/// word is the string, whatever characters it holds.
pub proof fn lemma_shell_escape_round_trip(s: Seq<char>)
    ensures
        shell_words(shell_escaped(s)) == Some(seq![s]),
{
    lemma_escaped_starts_word(s, Seq::<char>::empty());
    assert(shell_escaped(s) + Seq::<char>::empty() =~= shell_escaped(s));
}

/// A shell that reads the joined escaped forms of a list of arguments gets
/// the arguments back: as many words, each equal to its argument.
pub proof fn lemma_shell_escape_args_round_trip(args: Seq<Seq<char>>)
    ensures
        shell_words(shell_escaped_args(args)) == Some(args),
    decreases args.len(),
{
    if args.len() == 0 {
        assert(args =~= Seq::<Seq<char>>::empty());
    } else if args.len() == 1 {
        lemma_shell_escape_round_trip(args[0]);
        assert(args =~= seq![args[0]]);
    } else {
        let rest = args.drop_first();
        let tail = seq![' '] + shell_escaped_args(rest);
        assert(shell_escaped_args(args) =~= shell_escaped(args.first()) + tail);
        lemma_escaped_starts_word(args.first(), tail);
        assert(tail[0] == ' ');
        assert(tail.drop_first() =~= shell_escaped_args(rest));
        lemma_shell_escape_args_round_trip(rest);
        assert(seq![args.first()] + rest =~= args);
    }
}

/// Quotes a string for a POSIX shell: the string between single quotes, with
/// each single quote of its own replaced by `'\''`.
pub fn shell_escape(s: &str) -> (r: String)
    ensures
        r@ == shell_escaped(s@),
{
    let n: usize = s.unicode_len();
    let mut out = String::from_str("'");
    proof {
        reveal_strlit("'");
        reveal_strlit("'\\''");
        assert(s@.take(0) =~= Seq::<char>::empty());
        assert(out@ =~= seq!['\''] + escape_chars(s@.take(0)));
    }
    let mut i: usize = 0;
    while i < n
        invariant
            n == s@.len(),
            i <= n,
            out@ == seq!['\''] + escape_chars(s@.take(i as int)),
        decreases n - i,
    {
        proof {
            lemma_escape_chars_push(s@.take(i as int), s@[i as int]);
            assert(s@.take(i as int).push(s@[i as int]) =~= s@.take(i + 1));
            reveal_strlit("'\\''");
        }
        if s.get_char(i) == '\'' {
            out.append("'\\''");
            assert("'\\''"@ =~= escape_char('\''));
        } else {
            out.append(s.substring_char(i, i + 1));
            assert(s@.subrange(i as int, i + 1) =~= escape_char(s@[i as int]));
        }
        assert(out@ =~= seq!['\''] + escape_chars(s@.take(i + 1)));
        i += 1;
    }
    out.append("'");
    proof {
        reveal_strlit("'");
        assert(s@.take(n as int) =~= s@);
        assert("'"@ =~= seq!['\'']);
    }
    out
}

/// Quotes each argument for a POSIX shell and joins them by single spaces.
pub fn shell_escape_args(args: &Vec<String>) -> (r: String)
    ensures
        r@ == shell_escaped_args(string_views(args@)),
{
    let ghost views = string_views(args@);
    let mut out = String::new();
    let mut i: usize = 0;
    assert(views.take(0) =~= Seq::<Seq<char>>::empty());
    while i < args.len()
        invariant
            i <= args@.len(),
            views == string_views(args@),
            out@ == shell_escaped_args(views.take(i as int)),
        decreases args@.len() - i,
    {
        proof {
            lemma_shell_escaped_args_push(views.take(i as int), views[i as int]);
            assert(views.take(i as int).push(views[i as int]) =~= views.take(i + 1));
            reveal_strlit(" ");
        }
        if i > 0 {
            out.append(" ");
            assert(" "@ =~= seq![' ']);
        }
        let quoted = shell_escape(args[i].as_str());
        out.append(quoted.as_str());
        assert(out@ =~= shell_escaped_args(views.take(i + 1)));
        i += 1;
    }
    assert(views.take(i as int) =~= views);
    out
}

} // verus!
