//! The reply text that announces a split into teams.
use vstd::prelude::*;

verus! {

/// The decimal digit `d` as text.
pub open spec fn digit_text(d: nat) -> Seq<char> {
    if d == 0 {
        "0"@
    } else if d == 1 {
        "1"@
    } else if d == 2 {
        "2"@
    } else if d == 3 {
        "3"@
    } else if d == 4 {
        "4"@
    } else if d == 5 {
        "5"@
    } else if d == 6 {
        "6"@
    } else if d == 7 {
        "7"@
    } else if d == 8 {
        "8"@
    } else {
        "9"@
    }
}

/// `n` written in decimal, without leading zeros.
pub open spec fn decimal(n: nat) -> Seq<char>
    decreases n,
{
    if n < 10 {
        digit_text(n)
    } else {
        decimal(n / 10) + digit_text(n % 10)
    }
}

/// The texts of `items`, with `sep` between each two.
pub open spec fn joined_with(items: Seq<String>, sep: Seq<char>) -> Seq<char>
    decreases items.len(),
{
    if items.len() == 0 {
        Seq::empty()
    } else if items.len() == 1 {
        items[0]@
    } else {
        joined_with(items.drop_last(), sep) + sep + items.last()@
    }
}

/// The line for team `number` (1-based): `Team 3: a, b, c`.
pub open spec fn team_line(number: nat, team: Seq<String>) -> Seq<char> {
    "Team "@ + decimal(number) + ": "@ + joined_with(team, ", "@)
}

/// One line per team, in order, numbered from 1, separated by newlines.
pub open spec fn team_lines(teams: Seq<Vec<String>>) -> Seq<char>
    decreases teams.len(),
{
    if teams.len() == 0 {
        Seq::empty()
    } else if teams.len() == 1 {
        team_line(1, teams[0]@)
    } else {
        team_lines(teams.drop_last()) + "\n"@ + team_line(teams.len(), teams.last()@)
    }
}

fn push_digit(s: &mut String, d: usize)
    requires
        d < 10,
    ensures
        final(s)@ == old(s)@ + digit_text(d as nat),
{
    if d == 0 {
        s.append("0");
    } else if d == 1 {
        s.append("1");
    } else if d == 2 {
        s.append("2");
    } else if d == 3 {
        s.append("3");
    } else if d == 4 {
        s.append("4");
    } else if d == 5 {
        s.append("5");
    } else if d == 6 {
        s.append("6");
    } else if d == 7 {
        s.append("7");
    } else if d == 8 {
        s.append("8");
    } else {
        s.append("9");
    }
}

fn push_decimal(s: &mut String, n: usize)
    ensures
        final(s)@ == old(s)@ + decimal(n as nat),
    decreases n,
{
    if n >= 10 {
        push_decimal(s, n / 10);
    }
    push_digit(s, n % 10);
    assert(final(s)@ =~= old(s)@ + decimal(n as nat));
}

fn push_joined(s: &mut String, items: &Vec<String>, sep: &str)
    ensures
        final(s)@ == old(s)@ + joined_with(items@, sep@),
{
    let ghost start = s@;
    let mut i: usize = 0;
    while i < items.len()
        invariant
            i <= items@.len(),
            s@ == start + joined_with(items@.subrange(0, i as int), sep@),
        decreases items@.len() - i,
    {
        let ghost prefix = items@.subrange(0, i as int + 1);
        assert(prefix.drop_last() =~= items@.subrange(0, i as int));
        if i > 0 {
            s.append(sep);
        }
        s.append(items[i].as_str());
        i += 1;
        assert(s@ =~= start + joined_with(items@.subrange(0, i as int), sep@));
    }
    assert(items@.subrange(0, i as int) =~= items@);
}

/// The reply that announces `teams`: for each team, in order, a line
/// `Team {number}: {members joined by ", "}`, numbered from 1; the lines are
/// separated by newlines.
pub fn render_teams(teams: &Vec<Vec<String>>) -> (r: String)
    ensures
        r@ == team_lines(teams@),
{
    let mut out = String::new();
    let mut i: usize = 0;
    while i < teams.len()
        invariant
            i <= teams@.len(),
            out@ == team_lines(teams@.subrange(0, i as int)),
        decreases teams@.len() - i,
    {
        let ghost prefix = teams@.subrange(0, i as int + 1);
        assert(prefix.drop_last() =~= teams@.subrange(0, i as int));
        let ghost before = out@;
        if i > 0 {
            out.append("\n");
        }
        let ghost line_start = out@;
        out.append("Team ");
        push_decimal(&mut out, i + 1);
        out.append(": ");
        push_joined(&mut out, &teams[i], ", ");
        assert(out@ =~= line_start + team_line((i + 1) as nat, teams@[i as int]@));
        i += 1;
        assert(out@ =~= team_lines(teams@.subrange(0, i as int)));
    }
    assert(teams@.subrange(0, i as int) =~= teams@);
    out
}

} // verus!
