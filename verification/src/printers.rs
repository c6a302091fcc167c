//! The printers of the system, read from what the listing command printed.
//!
//! On Linux and macOS the list comes from `lpstat -p -d`: a line
//! `printer <name> ...` for each printer and a line
//! `system default destination: <name>` for the default. On Windows it comes
//! from a `Get-Printer` query printed as JSON, of which the `"Name"` lines are
//! read. Either way a printer is shown under its name with a space for each
//! underscore, and exactly one entry of a list that is not empty is the
//! default.

use vstd::prelude::*;
use crate::models::{PrinterInfo, PrinterInfoView};
use crate::text::{
    after_first, chars_of, contains, copy_range, has_prefix, has_substring, leading,
    lemma_leading_run, lines, occurs_at, option_view, replace_char, replaced, same_chars,
    second_field, split_after_first, split_lines, split_second_field, split_tokens, starts_with,
    string_of, tokens, trim, trim_class, trim_matches, views, CharClass,
};

verus! {

/// What a line of `lpstat` begins with where it names a printer.
pub const PRINTER_LINE_PREFIX: &'static str = "printer ";

/// What a line of `lpstat` holds where it names the default printer.
pub const DEFAULT_LINE_MARKER: &'static str = "default destination:";

/// What a line of the `Get-Printer` query holds where it names a printer.
pub const NAME_KEY: &'static str = "\"Name\"";

/// What has been read from the lines of `lpstat`: the names of the printers in
/// the order of their lines, and the name of the default where a line gave one.
pub struct LpstatScan {
    pub names: Seq<Seq<char>>,
    pub default: Option<Seq<char>>,
}

/// The scan after one more line. A line that begins with `printer ` adds its
/// second word to the names, if it has one. Any other line that holds
/// `default destination:` sets the default to all that follows its first
/// colon, without the white space around it.
pub open spec fn scan_lpstat_line(scan: LpstatScan, line: Seq<char>) -> LpstatScan {
    if starts_with(line, PRINTER_LINE_PREFIX@) {
        if tokens(line).len() >= 2 {
            LpstatScan { names: scan.names.push(tokens(line)[1]), default: scan.default }
        } else {
            scan
        }
    } else if contains(line, DEFAULT_LINE_MARKER@) {
        match after_first(line, ':') {
            Some(name) => LpstatScan { names: scan.names, default: Some(trim(name)) },
            None => scan,
        }
    } else {
        scan
    }
}

/// A line that holds `default destination:` and does not begin with
/// `printer ` always gives a default: the whole text after the first colon of
/// the line, without the white space around it. Colons further on belong to
/// the name.
pub proof fn lemma_default_line_gives_the_name(scan: LpstatScan, line: Seq<char>)
    requires
        !starts_with(line, PRINTER_LINE_PREFIX@),
        contains(line, DEFAULT_LINE_MARKER@),
    ensures
        leading(line, CharClass::Except(':')) < line.len(),
        scan_lpstat_line(scan, line) == (LpstatScan {
            names: scan.names,
            default: Some(trim(line.skip(leading(line, CharClass::Except(':')) as int + 1))),
        }),
{
    reveal_strlit("default destination:");
    let at = choose|at: int| occurs_at(line, DEFAULT_LINE_MARKER@, at);
    assert(line.subrange(at, at + 20)[19] == ':');
    lemma_leading_run(line, CharClass::Except(':'), 0);
}

/// The scan of all of `lines`, from the first to the last.
pub open spec fn scan_lpstat(lines: Seq<Seq<char>>) -> LpstatScan
    decreases lines.len(),
{
    if lines.len() == 0 {
        LpstatScan { names: Seq::empty(), default: None }
    } else {
        scan_lpstat_line(scan_lpstat(lines.drop_last()), lines.last())
    }
}

/// The index of the first of `names` that equals `name`, or their number where
/// none does.
pub open spec fn position_of(names: Seq<Seq<char>>, name: Seq<char>) -> int
    decreases names.len(),
{
    if names.len() == 0 {
        0
    } else if names[0] == name {
        0
    } else {
        1 + position_of(names.drop_first(), name)
    }
}

/// The index of the entry that is the default: the first that bears the name
/// `wanted`, and the first of all where none bears it or no name is wanted.
pub open spec fn default_position(names: Seq<Seq<char>>, wanted: Option<Seq<char>>) -> int {
    match wanted {
        Some(name) => if position_of(names, name) < names.len() {
            position_of(names, name)
        } else {
            0
        },
        None => 0,
    }
}

/// The name shown for a printer: its technical name with a space for each
/// underscore.
pub open spec fn display_name_of(name: Seq<char>) -> Seq<char> {
    replaced(name, '_', ' ')
}

/// The printer list for the names of a scan of `lpstat`.
pub open spec fn lpstat_printers(names: Seq<Seq<char>>, wanted: Option<Seq<char>>) -> Seq<
    PrinterInfoView,
> {
    Seq::new(
        names.len(),
        |i: int|
            PrinterInfoView {
                id: names[i],
                display_name: display_name_of(names[i]),
                is_default: i == default_position(names, wanted),
            },
    )
}

/// The printer list that the output of `lpstat -p -d` stands for.
pub open spec fn printers_from_lpstat(output: Seq<char>) -> Seq<PrinterInfoView> {
    let scan = scan_lpstat(lines(output));
    lpstat_printers(scan.names, scan.default)
}

/// The name that a line of the `Get-Printer` query gives, if any: on a line
/// that holds `"Name"`, what follows the first colon up to the next one,
/// without the white space around it, then without commas and then without
/// double quotes at its two ends, unless nothing is left.
pub open spec fn powershell_name(line: Seq<char>) -> Option<Seq<char>> {
    if contains(line, NAME_KEY@) {
        match second_field(line, ':') {
            Some(field) => {
                let name = trim_matches(trim_matches(trim(field), ','), '"');
                if name.len() > 0 {
                    Some(name)
                } else {
                    None
                }
            },
            None => None,
        }
    } else {
        None
    }
}

/// The names that the lines of the `Get-Printer` query give, in order.
pub open spec fn powershell_names(lines: Seq<Seq<char>>) -> Seq<Seq<char>>
    decreases lines.len(),
{
    if lines.len() == 0 {
        Seq::empty()
    } else {
        match powershell_name(lines.last()) {
            Some(name) => powershell_names(lines.drop_last()).push(name),
            None => powershell_names(lines.drop_last()),
        }
    }
}

/// The printer list for the names of the `Get-Printer` query: each is shown
/// with spaces for its underscores, and the first is the default.
pub open spec fn powershell_printers(names: Seq<Seq<char>>) -> Seq<PrinterInfoView> {
    Seq::new(
        names.len(),
        |i: int|
            PrinterInfoView {
                id: names[i],
                display_name: display_name_of(names[i]),
                is_default: i == 0,
            },
    )
}

/// The printer list that the output of the `Get-Printer` query stands for.
pub open spec fn printers_from_powershell(output: Seq<char>) -> Seq<PrinterInfoView> {
    powershell_printers(powershell_names(lines(output)))
}

/// The number of entries of `printers` that are marked as the default.
pub open spec fn default_count(printers: Seq<PrinterInfoView>) -> nat
    decreases printers.len(),
{
    if printers.len() == 0 {
        0
    } else {
        default_count(printers.drop_last()) + if printers.last().is_default {
            1nat
        } else {
            0nat
        }
    }
}

/// A list in which just the entry at `at` is marked has one default if `at` is
/// an index of it, and none otherwise.
proof fn lemma_single_mark(printers: Seq<PrinterInfoView>, at: int)
    requires
        forall|i: int| 0 <= i < printers.len() ==> (#[trigger] printers[i]).is_default == (i == at),
    ensures
        default_count(printers) == if 0 <= at < printers.len() {
            1nat
        } else {
            0nat
        },
    decreases printers.len(),
{
    if printers.len() > 0 {
        let rest = printers.drop_last();
        lemma_single_mark(rest, at);
    }
}

/// `position_of` gives the first index that bears the name.
pub proof fn lemma_position_of(names: Seq<Seq<char>>, name: Seq<char>)
    ensures
        0 <= position_of(names, name) <= names.len(),
        position_of(names, name) < names.len() ==> names[position_of(names, name)] == name,
        forall|i: int| 0 <= i < position_of(names, name) ==> #[trigger] names[i] != name,
    decreases names.len(),
{
    if names.len() > 0 && names[0] != name {
        let rest = names.drop_first();
        lemma_position_of(rest, name);
        assert forall|i: int| 0 <= i < position_of(names, name) implies #[trigger] names[i]
            != name by {
            if i > 0 {
                assert(names[i] == rest[i - 1]);
            }
        }
    }
}

/// A printer list read from `lpstat` that is not empty has exactly one
/// default, and an empty one has none: where no entry bears the wanted name,
/// or no name is wanted, the first entry is the default.
pub proof fn lemma_lpstat_one_default(names: Seq<Seq<char>>, wanted: Option<Seq<char>>)
    ensures
        lpstat_printers(names, wanted).len() == names.len(),
        names.len() == 0 ==> default_count(lpstat_printers(names, wanted)) == 0,
        names.len() > 0 ==> default_count(lpstat_printers(names, wanted)) == 1,
        0 <= default_position(names, wanted),
        names.len() > 0 ==> default_position(names, wanted) < names.len(),
        forall|i: int|
            0 <= i < names.len() ==> (#[trigger] lpstat_printers(names, wanted)[i]).is_default
                == (i == default_position(names, wanted)),
{
    if wanted is Some {
        lemma_position_of(names, wanted->0);
    }
    lemma_single_mark(lpstat_printers(names, wanted), default_position(names, wanted));
}

/// The default of a printer list read from `lpstat` is the first entry that
/// bears the wanted name. Where no entry bears it, the first entry of all is
/// the default.
pub proof fn lemma_lpstat_default_is_wanted(names: Seq<Seq<char>>, name: Seq<char>, i: int)
    requires
        0 <= i < names.len(),
    ensures
        names.contains(name) ==> (lpstat_printers(names, Some(name))[i].is_default <==> names[i]
            == name && forall|j: int| 0 <= j < i ==> #[trigger] names[j] != name),
        !names.contains(name) ==> (lpstat_printers(names, Some(name))[i].is_default <==> i == 0),
        lpstat_printers(names, None)[i].is_default <==> i == 0,
{
    lemma_position_of(names, name);
}

/// A printer list read from the `Get-Printer` query that is not empty has
/// exactly one default, its first entry, and an empty one has none.
pub proof fn lemma_powershell_one_default(names: Seq<Seq<char>>)
    ensures
        powershell_printers(names).len() == names.len(),
        names.len() == 0 ==> default_count(powershell_printers(names)) == 0,
        names.len() > 0 ==> default_count(powershell_printers(names)) == 1,
        names.len() > 0 ==> powershell_printers(names)[0].is_default,
{
    lemma_single_mark(powershell_printers(names), 0);
}

/// The index of the first of `names` that equals `name`, or their number where
/// none does.
pub fn find_name(names: &Vec<Vec<char>>, name: &Vec<char>) -> (at: usize)
    ensures
        at == position_of(views(names@), name@),
        at <= names.len(),
{
    let ghost all = views(names@);
    let mut i: usize = 0;
    assert(all.skip(0) =~= all);
    while i < names.len()
        invariant
            i <= names.len(),
            all == views(names@),
            position_of(all, name@) == i + position_of(all.skip(i as int), name@),
        decreases names.len() - i,
    {
        let ghost rest = all.skip(i as int);
        if same_chars(&names[i], name) {
            return i;
        }
        assert(rest.drop_first() =~= all.skip(i + 1));
        i = i + 1;
    }
    i
}

/// The printer list for the names of a scan of `lpstat`, as
/// [`lpstat_printers`] defines it.
pub fn lpstat_entries(names: &Vec<Vec<char>>, wanted: &Option<Vec<char>>) -> (printers: Vec<
    PrinterInfo,
>)
    ensures
        printers.deep_view() == lpstat_printers(views(names@), option_view(*wanted)),
        printers.len() == names.len(),
{
    let at: usize = match wanted {
        Some(name) => {
            let found = find_name(names, name);
            if found < names.len() {
                found
            } else {
                0
            }
        },
        None => 0,
    };
    let ghost expected = lpstat_printers(views(names@), option_view(*wanted));
    let mut printers: Vec<PrinterInfo> = Vec::new();
    let mut i: usize = 0;
    while i < names.len()
        invariant
            i <= names.len(),
            at == default_position(views(names@), option_view(*wanted)),
            expected == lpstat_printers(views(names@), option_view(*wanted)),
            printers.deep_view() == expected.take(i as int),
        decreases names.len() - i,
    {
        let ghost before = printers.deep_view();
        let shown = replace_char(&names[i], '_', ' ');
        let entry = PrinterInfo {
            id: string_of(&names[i]),
            display_name: string_of(&shown),
            is_default: i == at,
        };
        printers.push(entry);
        assert(printers.deep_view() =~= before.push(entry@));
        i = i + 1;
    }
    printers
}

/// Reads the printer list from what `lpstat -p -d` printed.
///
/// Each line that begins with `printer ` and has a second word gives a
/// printer of that name, shown with spaces for underscores. The default is the
/// first printer that bears the name given by the last line with
/// `default destination:`, which is all that follows the first colon of that
/// line, trimmed; it is the first printer of all where there is no such line or
/// no printer of that name.
pub fn parse_lpstat(output: &str) -> (printers: Vec<PrinterInfo>)
    ensures
        printers.deep_view() == printers_from_lpstat(output@),
        default_count(printers.deep_view()) == if printers.len() == 0 {
            0nat
        } else {
            1nat
        },
{
    let chars = chars_of(output);
    let rows = split_lines(&chars);
    let prefix = chars_of(PRINTER_LINE_PREFIX);
    let marker = chars_of(DEFAULT_LINE_MARKER);
    let mut names: Vec<Vec<char>> = Vec::new();
    let mut wanted: Option<Vec<char>> = None;
    let ghost all = views(rows@);
    let mut i: usize = 0;
    assert(views(names@) =~= Seq::<Seq<char>>::empty());
    while i < rows.len()
        invariant
            i <= rows.len(),
            all == views(rows@),
            prefix@ == PRINTER_LINE_PREFIX@,
            marker@ == DEFAULT_LINE_MARKER@,
            scan_lpstat(all.take(i as int)) == (LpstatScan {
                names: views(names@),
                default: option_view(wanted),
            }),
        decreases rows.len() - i,
    {
        let ghost before = views(names@);
        let line = &rows[i];
        assert(all.take(i + 1).drop_last() =~= all.take(i as int));
        if has_prefix(line, &prefix) {
            let words = split_tokens(line);
            if words.len() >= 2 {
                let word = copy_range(&words[1], 0, words[1].len());
                assert(word@ =~= tokens(line@)[1]);
                names.push(word);
                assert(views(names@) =~= before.push(word@));
            }
        } else if has_substring(line, &marker) {
            match split_after_first(line, ':') {
                Some(rest) => {
                    wanted = Some(trim_class(&rest, CharClass::Whitespace));
                },
                None => {},
            }
        }
        i = i + 1;
    }
    assert(all.take(rows.len() as int) =~= all);
    proof {
        lemma_lpstat_one_default(views(names@), option_view(wanted));
    }
    lpstat_entries(&names, &wanted)
}

/// Reads the printer list from what the `Get-Printer` query printed.
///
/// Each line that holds `"Name"` and, after its first colon, a name that is
/// not empty gives a printer of that name, shown with spaces for underscores.
/// The first printer is the default.
pub fn parse_powershell(output: &str) -> (printers: Vec<PrinterInfo>)
    ensures
        printers.deep_view() == printers_from_powershell(output@),
        default_count(printers.deep_view()) == if printers.len() == 0 {
            0nat
        } else {
            1nat
        },
{
    let chars = chars_of(output);
    let rows = split_lines(&chars);
    let key = chars_of(NAME_KEY);
    let ghost all = views(rows@);
    let mut printers: Vec<PrinterInfo> = Vec::new();
    let ghost mut names: Seq<Seq<char>> = Seq::empty();
    let mut i: usize = 0;
    while i < rows.len()
        invariant
            i <= rows.len(),
            all == views(rows@),
            key@ == NAME_KEY@,
            names == powershell_names(all.take(i as int)),
            printers.deep_view() == powershell_printers(names),
        decreases rows.len() - i,
    {
        let ghost before = printers.deep_view();
        let line = &rows[i];
        assert(all.take(i + 1).drop_last() =~= all.take(i as int));
        if has_substring(line, &key) {
            match split_second_field(line, ':') {
                Some(field) => {
                    let inner = trim_class(&field, CharClass::Whitespace);
                    let bare = trim_class(&inner, CharClass::Only(','));
                    let name = trim_class(&bare, CharClass::Only('"'));
                    if name.len() > 0 {
                        let shown = replace_char(&name, '_', ' ');
                        let entry = PrinterInfo {
                            id: string_of(&name),
                            display_name: string_of(&shown),
                            is_default: printers.len() == 0,
                        };
                        printers.push(entry);
                        proof {
                            names = names.push(name@);
                            assert(printers.deep_view() =~= before.push(entry@));
                        }
                    }
                },
                None => {},
            }
        }
        i = i + 1;
    }
    assert(all.take(rows.len() as int) =~= all);
    proof {
        lemma_powershell_one_default(names);
    }
    printers
}

/// The name of the first entry that is marked as the default, if any is.
pub open spec fn first_default(printers: Seq<PrinterInfoView>) -> Option<Seq<char>>
    decreases printers.len(),
{
    if printers.len() == 0 {
        None
    } else if printers[0].is_default {
        Some(printers[0].id)
    } else {
        first_default(printers.drop_first())
    }
}

/// The technical name of the default printer: that of the first entry marked
/// as the default, or `None` where no entry is.
pub fn default_printer(printers: &Vec<PrinterInfo>) -> (name: Option<String>)
    ensures
        name.deep_view() == first_default(printers.deep_view()),
{
    let ghost all = printers.deep_view();
    let mut i: usize = 0;
    assert(all.skip(0) =~= all);
    while i < printers.len()
        invariant
            i <= printers.len(),
            all == printers.deep_view(),
            first_default(all) == first_default(all.skip(i as int)),
        decreases printers.len() - i,
    {
        let ghost rest = all.skip(i as int);
        if printers[i].is_default {
            return Some(printers[i].id.clone());
        }
        assert(rest.drop_first() =~= all.skip(i + 1));
        i = i + 1;
    }
    None
}

} // verus!
