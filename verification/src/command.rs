use vstd::prelude::*;
use crate::console::{with_log, with_logs, DebugConsoleState, LogTone};
use crate::console_text::{
    chars_of, lowercase, parse_i32, parse_u32, parsed_i32, parsed_u32, split_words,
    to_lowercase, trim, trim_chars, trim_end, trim_start, white_space, words,
};
use crate::hex::{fits_i32, HexCoord};
use crate::resources::{advanced_n, can_advance_n, FactionResources};
use crate::text::{
    decimal, int_text, push_decimal, push_int, push_signed, signed_text, string_append,
};

verus! {

/// The four stockpiles that console commands change.
#[derive(Debug, Clone, Copy, PartialEq, Eq, Structural)]
pub enum ResourceKind {
    Energy,
    Production,
    Science,
    Food,
}

/// A stockpile's amount.
pub open spec fn stock(r: FactionResources, k: ResourceKind) -> int {
    match k {
        ResourceKind::Energy => r.energy as int,
        ResourceKind::Production => r.production as int,
        ResourceKind::Science => r.science as int,
        ResourceKind::Food => r.food as int,
    }
}

/// The resources with `delta` added to one stockpile.
pub open spec fn add_stock(r: FactionResources, k: ResourceKind, delta: int) -> FactionResources {
    match k {
        ResourceKind::Energy => FactionResources { energy: (r.energy + delta) as i32, ..r },
        ResourceKind::Production => FactionResources { production: (r.production + delta) as i32, ..r },
        ResourceKind::Science => FactionResources { science: (r.science + delta) as i32, ..r },
        ResourceKind::Food => FactionResources { food: (r.food + delta) as i32, ..r },
    }
}

/// The command word that names a stockpile in usage lines.
pub open spec fn stock_command(k: ResourceKind) -> Seq<char> {
    match k {
        ResourceKind::Energy => "energy"@,
        ResourceKind::Production => "prod"@,
        ResourceKind::Science => "sci"@,
        ResourceKind::Food => "food"@,
    }
}

/// The stockpile's name at the start of a report line.
pub open spec fn stock_title(k: ResourceKind) -> Seq<char> {
    match k {
        ResourceKind::Energy => "Energy"@,
        ResourceKind::Production => "Production"@,
        ResourceKind::Science => "Science"@,
        ResourceKind::Food => "Food"@,
    }
}

/// The stockpile a command word names, if any: "energy", "prod" or
/// "production", "sci" or "science", "food".
pub open spec fn stock_of_command(cmd: Seq<char>) -> Option<ResourceKind> {
    if cmd == "energy"@ {
        Some(ResourceKind::Energy)
    } else if cmd == "prod"@ || cmd == "production"@ {
        Some(ResourceKind::Production)
    } else if cmd == "sci"@ || cmd == "science"@ {
        Some(ResourceKind::Science)
    } else if cmd == "food"@ {
        Some(ResourceKind::Food)
    } else {
        None
    }
}

/// The lines that "help" prints.
pub open spec fn help_lines() -> Seq<(Seq<char>, LogTone)> {
    seq![
        ("=== AVAILABLE COMMANDS ==="@, LogTone::Header),
        ("  help                  : Show this help message"@, LogTone::Plain),
        ("  clear                 : Clear console log"@, LogTone::Plain),
        ("  turn <count>          : Advance turns (default 1)"@, LogTone::Plain),
        ("  energy <amount>       : Add/subtract energy"@, LogTone::Plain),
        ("  prod <amount>         : Add/subtract production"@, LogTone::Plain),
        ("  sci <amount>          : Add/subtract science"@, LogTone::Plain),
        ("  food <amount>         : Add/subtract food"@, LogTone::Plain),
        ("  res <e> <p> <s> <f>   : Set all 4 resources at once"@, LogTone::Plain),
        ("  goto <q> <r>          : Jump camera to HexCoord (q, r)"@, LogTone::Plain),
        ("  cam <q> <r>           : Alias for goto"@, LogTone::Plain),
    ]
}

/// The turn count a "turn" command asks for: its first argument, or 1
/// without one; `None` when the argument is not a number.
pub open spec fn turn_count(args: Seq<Seq<char>>) -> Option<u32> {
    if args.len() > 0 {
        parsed_u32(args[0])
    } else {
        Some(1)
    }
}

/// The four amounts of a "res" command, when it has at least four
/// arguments and the first four are numbers.
pub open spec fn res_amounts(args: Seq<Seq<char>>) -> Option<(i32, i32, i32, i32)> {
    if args.len() >= 4 && parsed_i32(args[0]) is Some && parsed_i32(args[1]) is Some && parsed_i32(
        args[2],
    ) is Some && parsed_i32(args[3]) is Some {
        Some((parsed_i32(args[0])->0, parsed_i32(args[1])->0, parsed_i32(args[2])->0, parsed_i32(args[3])->0))
    } else {
        None
    }
}

/// The target of a "goto" command, when it has at least two arguments and
/// the first two are numbers.
pub open spec fn goto_target(args: Seq<Seq<char>>) -> Option<HexCoord> {
    if args.len() >= 2 && parsed_i32(args[0]) is Some && parsed_i32(args[1]) is Some {
        Some(HexCoord { q: parsed_i32(args[0])->0, r: parsed_i32(args[1])->0 })
    } else {
        None
    }
}

/// A command can run without a stockpile or the turn number leaving its
/// integer type.
pub open spec fn command_in_range(cmd: Seq<char>, args: Seq<Seq<char>>, r: FactionResources) -> bool {
    if cmd == "turn"@ {
        match turn_count(args) {
            Some(n) => can_advance_n(r, n as nat),
            None => true,
        }
    } else if stock_of_command(cmd) is Some {
        let k = stock_of_command(cmd)->0;
        args.len() == 0 || match parsed_i32(args[0]) {
            Some(v) => fits_i32(stock(r, k) + v),
            None => true,
        }
    } else if cmd == "res"@ || cmd == "resources"@ {
        match res_amounts(args) {
            Some((e, p, s, f)) => fits_i32(r.energy + e) && fits_i32(r.production + p) && fits_i32(
                r.science + s,
            ) && fits_i32(r.food + f),
            None => true,
        }
    } else {
        true
    }
}

/// A single log line.
pub open spec fn one_line(text: Seq<char>, tone: LogTone) -> Seq<(Seq<char>, LogTone)> {
    seq![(text, tone)]
}

/// What "turn" does: ends the asked number of turns and reports the new
/// turn number, or prints its usage when the count is not a number.
pub open spec fn turn_effect(args: Seq<Seq<char>>, r: FactionResources) -> (
    Seq<(Seq<char>, LogTone)>,
    FactionResources,
) {
    match turn_count(args) {
        None => (one_line("Usage: turn <number>"@, LogTone::Error), r),
        Some(n) => {
            let r2 = advanced_n(r, n as nat);
            (
                one_line(
                    "Advanced "@ + decimal(n as nat) + " turns. Current turn: "@ + decimal(
                        r2.turn as nat,
                    ),
                    LogTone::Success,
                ),
                r2,
            )
        },
    }
}

/// What a stockpile command does: adds its amount to the stockpile and
/// reports the new amount, or prints its usage when the amount is missing or
/// not a number.
pub open spec fn stock_effect(k: ResourceKind, args: Seq<Seq<char>>, r: FactionResources) -> (
    Seq<(Seq<char>, LogTone)>,
    FactionResources,
) {
    if args.len() == 0 {
        (one_line("Usage: "@ + stock_command(k) + " <amount>"@, LogTone::Error), r)
    } else {
        match parsed_i32(args[0]) {
            None => (
                one_line(
                    "Invalid amount. Usage: "@ + stock_command(k) + " <amount>"@,
                    LogTone::Error,
                ),
                r,
            ),
            Some(v) => {
                let r2 = add_stock(r, k, v as int);
                (
                    one_line(
                        stock_title(k) + " changed by "@ + int_text(v as int) + ". Current: "@
                            + int_text(stock(r2, k)),
                        LogTone::Success,
                    ),
                    r2,
                )
            },
        }
    }
}

/// What "res" does: adds four amounts to the four stockpiles and reports
/// them with their signs, or prints its usage.
pub open spec fn res_effect(args: Seq<Seq<char>>, r: FactionResources) -> (
    Seq<(Seq<char>, LogTone)>,
    FactionResources,
) {
    match res_amounts(args) {
        None => (
            one_line("Usage: res <energy> <production> <science> <food>"@, LogTone::Error),
            r,
        ),
        Some((e, p, s, f)) => {
            let r2 = FactionResources {
                energy: (r.energy + e) as i32,
                production: (r.production + p) as i32,
                science: (r.science + s) as i32,
                food: (r.food + f) as i32,
                ..r
            };
            (
                one_line(
                    "Resources added: E:"@ + signed_text(e as int) + ", P:"@ + signed_text(p as int)
                        + ", S:"@ + signed_text(s as int) + ", F:"@ + signed_text(f as int),
                    LogTone::Success,
                ),
                r2,
            )
        },
    }
}

/// What a command does: the lines it prints, whether it clears the log,
/// the resources afterwards, and the hex the camera is to jump to.
///
/// "help" prints the command list; "clear" or "cls" clears the log; "turn"
/// ends the given number of turns (1 by default); "energy", "prod", "sci"
/// and "food" (and their long names) add an amount to one stockpile; "res"
/// adds four amounts at once; "goto" or "cam" names the hex the camera is to
/// jump to; any other word is an unknown command. A missing or malformed
/// argument prints the command's usage.
pub open spec fn command_effect(cmd: Seq<char>, args: Seq<Seq<char>>, r: FactionResources) -> (
    Seq<(Seq<char>, LogTone)>,
    bool,
    FactionResources,
    Option<HexCoord>,
) {
    if cmd == "help"@ {
        (help_lines(), false, r, None)
    } else if cmd == "clear"@ || cmd == "cls"@ {
        (Seq::empty(), true, r, None)
    } else if cmd == "turn"@ {
        (turn_effect(args, r).0, false, turn_effect(args, r).1, None)
    } else if stock_of_command(cmd) is Some {
        let k = stock_of_command(cmd)->0;
        (stock_effect(k, args, r).0, false, stock_effect(k, args, r).1, None)
    } else if cmd == "res"@ || cmd == "resources"@ {
        (res_effect(args, r).0, false, res_effect(args, r).1, None)
    } else if cmd == "goto"@ || cmd == "cam"@ {
        match goto_target(args) {
            None => (one_line("Usage: goto <q> <r>"@, LogTone::Error), false, r, None),
            Some(c) => (Seq::empty(), false, r, Some(c)),
        }
    } else {
        (
            one_line(
                "Unknown command: '"@ + cmd + "'. Type 'help' for command list."@,
                LogTone::Error,
            ),
            false,
            r,
            None,
        )
    }
}

fn eq_literal(cs: &Vec<char>, lit: &str) -> (b: bool)
    ensures
        b == (cs@ == lit@),
{
    let l = chars_of(lit);
    if cs.len() != l.len() {
        return false;
    }
    let mut i: usize = 0;
    while i < cs.len()
        invariant
            cs@.len() == l@.len(),
            l@ == lit@,
            i <= cs@.len(),
            forall|j: int| 0 <= j < i ==> cs@[j] == l@[j],
        decreases cs@.len() - i,
    {
        if cs[i] != l[i] {
            return false;
        }
        i = i + 1;
    }
    assert(cs@ =~= l@);
    true
}

fn stock_of_command_exec(cmd: &Vec<char>) -> (k: Option<ResourceKind>)
    ensures
        k == stock_of_command(cmd@),
{
    if eq_literal(cmd, "energy") {
        Some(ResourceKind::Energy)
    } else if eq_literal(cmd, "prod") || eq_literal(cmd, "production") {
        Some(ResourceKind::Production)
    } else if eq_literal(cmd, "sci") || eq_literal(cmd, "science") {
        Some(ResourceKind::Science)
    } else if eq_literal(cmd, "food") {
        Some(ResourceKind::Food)
    } else {
        None
    }
}

fn stock_exec(r: &FactionResources, k: ResourceKind) -> (v: i32)
    ensures
        v == stock(*r, k),
{
    match k {
        ResourceKind::Energy => r.energy,
        ResourceKind::Production => r.production,
        ResourceKind::Science => r.science,
        ResourceKind::Food => r.food,
    }
}

fn turn_count_exec(args: &Vec<Vec<char>>) -> (n: Option<u32>)
    ensures
        n == turn_count(args@.map_values(|w: Vec<char>| w@)),
{
    if args.len() > 0 {
        parse_u32(&args[0])
    } else {
        Some(1)
    }
}

fn res_amounts_exec(args: &Vec<Vec<char>>) -> (a: Option<(i32, i32, i32, i32)>)
    ensures
        a == res_amounts(args@.map_values(|w: Vec<char>| w@)),
{
    if args.len() >= 4 {
        let e = parse_i32(&args[0]);
        let p = parse_i32(&args[1]);
        let s = parse_i32(&args[2]);
        let f = parse_i32(&args[3]);
        match (e, p, s, f) {
            (Some(e), Some(p), Some(s), Some(f)) => Some((e, p, s, f)),
            _ => None,
        }
    } else {
        None
    }
}

fn goto_target_exec(args: &Vec<Vec<char>>) -> (c: Option<HexCoord>)
    ensures
        c == goto_target(args@.map_values(|w: Vec<char>| w@)),
{
    if args.len() >= 2 {
        match (parse_i32(&args[0]), parse_i32(&args[1])) {
            (Some(q), Some(r)) => Some(HexCoord::new(q, r)),
            _ => None,
        }
    } else {
        None
    }
}

/// Whether a command can run without an integer leaving its type, as
/// `command_in_range` states.
pub fn command_fits(cmd: &Vec<char>, args: &Vec<Vec<char>>, r: &FactionResources) -> (b: bool)
    ensures
        b == command_in_range(cmd@, args@.map_values(|w: Vec<char>| w@), *r),
{
    let ghost a = args@.map_values(|w: Vec<char>| w@);
    if eq_literal(cmd, "turn") {
        match turn_count_exec(args) {
            Some(n) => turns_fit(r, n),
            None => true,
        }
    } else {
        match stock_of_command_exec(cmd) {
            Some(k) => {
                if args.len() == 0 {
                    true
                } else {
                    match parse_i32(&args[0]) {
                        Some(v) => {
                            let cur = stock_exec(r, k) as i64;
                            let sum = cur + v as i64;
                            i32::MIN as i64 <= sum && sum <= i32::MAX as i64
                        },
                        None => true,
                    }
                }
            },
            None => {
                if eq_literal(cmd, "res") || eq_literal(cmd, "resources") {
                    match res_amounts_exec(args) {
                        Some((e, p, s, f)) => {
                            fits_i64(r.energy as i64 + e as i64) && fits_i64(r.production as i64 + p as i64)
                                && fits_i64(r.science as i64 + s as i64) && fits_i64(r.food as i64 + f as i64)
                        },
                        None => true,
                    }
                } else {
                    true
                }
            },
        }
    }
}

fn fits_i64(x: i64) -> (b: bool)
    ensures
        b == fits_i32(x as int),
{
    i32::MIN as i64 <= x && x <= i32::MAX as i64
}

/// Whether a stockpile stays in range after `n` turns of income.
fn fits_after(v: i32, inc: i32, n: u32) -> (b: bool)
    ensures
        b == fits_i32(v + n * inc),
{
    assert(-0x1_0000_0000_0000_0000i128 <= (n as int) * (inc as int) <= 0x1_0000_0000_0000_0000i128)
        by (nonlinear_arith)
        requires
            0 <= n <= u32::MAX,
            i32::MIN <= inc <= i32::MAX,
    ;
    let total: i128 = v as i128 + (n as i128) * (inc as i128);
    i32::MIN as i128 <= total && total <= i32::MAX as i128
}

/// Whether `n` turns can be ended, as `can_advance_n` states: the turn
/// number and every stockpile stay in range after the last of them.
fn turns_fit(r: &FactionResources, n: u32) -> (b: bool)
    ensures
        b == can_advance_n(*r, n as nat),
{
    proof {
        lemma_can_advance_n_closed(*r, n as nat);
    }
    n == 0 || ((r.turn as u64) + (n as u64) <= u32::MAX as u64 && fits_after(
        r.energy,
        r.energy_per_turn,
        n,
    ) && fits_after(r.production, r.production_per_turn, n) && fits_after(
        r.science,
        r.science_per_turn,
        n,
    ) && fits_after(r.food, r.food_per_turn, n))
}

/// A value on a line between two values in range is in range.
proof fn lemma_between_fits(v: int, inc: int, n: nat)
    requires
        n >= 1,
        fits_i32(v),
        fits_i32(v + n * inc),
    ensures
        fits_i32(v + (n - 1) * inc),
{
    assert(v + (n - 1) * inc == v + n * inc - inc) by (nonlinear_arith);
    if inc >= 0 {
        assert((n - 1) * inc >= 0) by (nonlinear_arith)
            requires
                n >= 1,
                inc >= 0,
        ;
    } else {
        assert((n - 1) * inc <= 0) by (nonlinear_arith)
            requires
                n >= 1,
                inc < 0,
        ;
    }
}

/// `n` turns can be ended exactly when the turn number and every stockpile
/// are still in range after the last of them.
proof fn lemma_can_advance_n_closed(r: FactionResources, n: nat)
    ensures
        can_advance_n(r, n) <==> (n == 0 || (r.turn + n <= u32::MAX && fits_i32(
            r.energy + n * r.energy_per_turn,
        ) && fits_i32(r.production + n * r.production_per_turn) && fits_i32(
            r.science + n * r.science_per_turn,
        ) && fits_i32(r.food + n * r.food_per_turn))),
    decreases n,
{
    if n > 0 {
        let m = (n - 1) as nat;
        lemma_can_advance_n_closed(r, m);
        assert(m * r.energy_per_turn + r.energy_per_turn == n * r.energy_per_turn) by (nonlinear_arith)
            requires
                m + 1 == n,
        ;
        assert(m * r.production_per_turn + r.production_per_turn == n * r.production_per_turn)
            by (nonlinear_arith)
            requires
                m + 1 == n,
        ;
        assert(m * r.science_per_turn + r.science_per_turn == n * r.science_per_turn) by (nonlinear_arith)
            requires
                m + 1 == n,
        ;
        assert(m * r.food_per_turn + r.food_per_turn == n * r.food_per_turn) by (nonlinear_arith)
            requires
                m + 1 == n,
        ;
        if can_advance_n(r, m) {
            crate::resources::lemma_advance_n_closed_form(r, m);
        }
        if m > 0 && r.turn + n <= u32::MAX && fits_i32(r.energy + n * r.energy_per_turn) && fits_i32(
            r.production + n * r.production_per_turn,
        ) && fits_i32(r.science + n * r.science_per_turn) && fits_i32(r.food + n * r.food_per_turn) {
            lemma_between_fits(r.energy as int, r.energy_per_turn as int, n);
            lemma_between_fits(r.production as int, r.production_per_turn as int, n);
            lemma_between_fits(r.science as int, r.science_per_turn as int, n);
            lemma_between_fits(r.food as int, r.food_per_turn as int, n);
            assert(can_advance_n(r, m));
            crate::resources::lemma_advance_n_closed_form(r, m);
        }
    }
}

/// Adding one line is adding a one-line sequence.
proof fn lemma_with_logs_one(v: Seq<(Seq<char>, LogTone)>, e: (Seq<char>, LogTone))
    ensures
        with_logs(v, seq![e]) == with_log(v, e),
{
    assert(seq![e].drop_last() =~= Seq::<(Seq<char>, LogTone)>::empty());
    assert(with_logs(v, seq![e].drop_last()) == v);
}

/// Adding the first `i + 1` lines is adding the first `i` and then line `i`.
proof fn lemma_with_logs_step(v: Seq<(Seq<char>, LogTone)>, es: Seq<(Seq<char>, LogTone)>, i: int)
    requires
        0 <= i < es.len(),
    ensures
        with_logs(v, es.take(i + 1)) == with_log(with_logs(v, es.take(i)), es[i]),
{
    assert(es.take(i + 1).drop_last() =~= es.take(i));
}

/// The text and tone of each line of a list of literal lines.
pub open spec fn lines_view(lines: Seq<(&str, LogTone)>) -> Seq<(Seq<char>, LogTone)> {
    lines.map_values(|e: (&str, LogTone)| (e.0@, e.1))
}

/// Adds literal lines to the log in order.
fn add_lines(state: &mut DebugConsoleState, lines: &Vec<(&str, LogTone)>)
    ensures
        final(state).log_lines() == with_logs(old(state).log_lines(), lines_view(lines@)),
        final(state).same_but_log(*old(state)),
{
    let ghost v = state.log_lines();
    let ghost es = lines_view(lines@);
    let mut i: usize = 0;
    while i < lines.len()
        invariant
            i <= lines@.len(),
            es == lines_view(lines@),
            state.log_lines() == with_logs(v, es.take(i as int)),
            state.same_but_log(*old(state)),
        decreases lines@.len() - i,
    {
        let (text, tone) = lines[i];
        proof {
            lemma_with_logs_step(v, es, i as int);
        }
        state.add_log(String::from_str(text), tone);
        i = i + 1;
    }
    assert(es.take(lines@.len() as int) =~= es);
}

/// Adds one line to the log.
fn add_line(state: &mut DebugConsoleState, text: String, tone: LogTone)
    ensures
        final(state).log_lines() == with_logs(old(state).log_lines(), one_line(text@, tone)),
        final(state).same_but_log(*old(state)),
{
    proof {
        lemma_with_logs_one(state.log_lines(), (text@, tone));
    }
    state.add_log(text, tone);
}

/// Appends some characters to a string.
fn push_chars(s: &mut String, cs: &Vec<char>)
    ensures
        final(s)@ == old(s)@ + cs@,
{
    let mut i: usize = 0;
    while i < cs.len()
        invariant
            i <= cs@.len(),
            s@ == old(s)@ + cs@.take(i as int),
        decreases cs@.len() - i,
    {
        crate::text::string_push(s, cs[i]);
        i = i + 1;
        assert(s@ =~= old(s)@ + cs@.take(i as int));
    }
    assert(cs@.take(cs@.len() as int) =~= cs@);
}

/// Prints the command list.
fn run_help(state: &mut DebugConsoleState)
    ensures
        final(state).log_lines() == with_logs(old(state).log_lines(), help_lines()),
        final(state).same_but_log(*old(state)),
{
    let mut lines: Vec<(&str, LogTone)> = Vec::new();
    lines.push(("=== AVAILABLE COMMANDS ===", LogTone::Header));
    lines.push(("  help                  : Show this help message", LogTone::Plain));
    lines.push(("  clear                 : Clear console log", LogTone::Plain));
    lines.push(("  turn <count>          : Advance turns (default 1)", LogTone::Plain));
    lines.push(("  energy <amount>       : Add/subtract energy", LogTone::Plain));
    lines.push(("  prod <amount>         : Add/subtract production", LogTone::Plain));
    lines.push(("  sci <amount>          : Add/subtract science", LogTone::Plain));
    lines.push(("  food <amount>         : Add/subtract food", LogTone::Plain));
    lines.push(("  res <e> <p> <s> <f>   : Set all 4 resources at once", LogTone::Plain));
    lines.push(("  goto <q> <r>          : Jump camera to HexCoord (q, r)", LogTone::Plain));
    lines.push(("  cam <q> <r>           : Alias for goto", LogTone::Plain));
    assert(lines_view(lines@) =~= help_lines());
    add_lines(state, &lines);
}

/// The command word of a stockpile.
fn stock_command_str(k: ResourceKind) -> (s: &'static str)
    ensures
        s@ == stock_command(k),
{
    match k {
        ResourceKind::Energy => "energy",
        ResourceKind::Production => "prod",
        ResourceKind::Science => "sci",
        ResourceKind::Food => "food",
    }
}

/// The report name of a stockpile.
fn stock_title_str(k: ResourceKind) -> (s: &'static str)
    ensures
        s@ == stock_title(k),
{
    match k {
        ResourceKind::Energy => "Energy",
        ResourceKind::Production => "Production",
        ResourceKind::Science => "Science",
        ResourceKind::Food => "Food",
    }
}

/// Adds `v` to one stockpile.
fn add_stock_exec(r: &mut FactionResources, k: ResourceKind, v: i32)
    requires
        fits_i32(stock(*old(r), k) + v),
    ensures
        *final(r) == add_stock(*old(r), k, v as int),
{
    match k {
        ResourceKind::Energy => r.energy = r.energy + v,
        ResourceKind::Production => r.production = r.production + v,
        ResourceKind::Science => r.science = r.science + v,
        ResourceKind::Food => r.food = r.food + v,
    }
}

/// The words of a command line as character sequences.
pub open spec fn words_view(args: Seq<Vec<char>>) -> Seq<Seq<char>> {
    args.map_values(|w: Vec<char>| w@)
}

/// Runs "turn", as `turn_effect` states.
fn run_turn(args: &Vec<Vec<char>>, state: &mut DebugConsoleState, res: &mut FactionResources)
    requires
        match turn_count(words_view(args@)) {
            Some(n) => can_advance_n(*old(res), n as nat),
            None => true,
        },
    ensures
        final(state).log_lines() == with_logs(
            old(state).log_lines(),
            turn_effect(words_view(args@), *old(res)).0,
        ),
        *final(res) == turn_effect(words_view(args@), *old(res)).1,
        final(state).same_but_log(*old(state)),
{
    match turn_count_exec(args) {
        None => add_line(state, String::from_str("Usage: turn <number>"), LogTone::Error),
        Some(n) => {
            res.advance_turns(n);
            let mut s = String::from_str("Advanced ");
            push_decimal(&mut s, n as u64);
            string_append(&mut s, " turns. Current turn: ");
            push_decimal(&mut s, res.turn as u64);
            assert(s@ =~= "Advanced "@ + decimal(n as nat) + " turns. Current turn: "@ + decimal(
                res.turn as nat,
            ));
            add_line(state, s, LogTone::Success);
        },
    }
}

/// Runs a stockpile command, as `stock_effect` states.
fn run_stock(
    k: ResourceKind,
    args: &Vec<Vec<char>>,
    state: &mut DebugConsoleState,
    res: &mut FactionResources,
)
    requires
        args@.len() == 0 || match parsed_i32(args@[0]@) {
            Some(v) => fits_i32(stock(*old(res), k) + v),
            None => true,
        },
    ensures
        final(state).log_lines() == with_logs(
            old(state).log_lines(),
            stock_effect(k, words_view(args@), *old(res)).0,
        ),
        *final(res) == stock_effect(k, words_view(args@), *old(res)).1,
        final(state).same_but_log(*old(state)),
{
    let name = stock_command_str(k);
    if args.len() == 0 {
        let mut s = String::from_str("Usage: ");
        string_append(&mut s, name);
        string_append(&mut s, " <amount>");
        assert(s@ =~= "Usage: "@ + stock_command(k) + " <amount>"@);
        add_line(state, s, LogTone::Error);
    } else {
        assert(words_view(args@)[0] == args@[0]@);
        match parse_i32(&args[0]) {
            None => {
                let mut s = String::from_str("Invalid amount. Usage: ");
                string_append(&mut s, name);
                string_append(&mut s, " <amount>");
                assert(s@ =~= "Invalid amount. Usage: "@ + stock_command(k) + " <amount>"@);
                add_line(state, s, LogTone::Error);
            },
            Some(v) => {
                add_stock_exec(res, k, v);
                let mut s = String::from_str(stock_title_str(k));
                string_append(&mut s, " changed by ");
                push_int(&mut s, v as i64);
                string_append(&mut s, ". Current: ");
                push_int(&mut s, stock_exec(res, k) as i64);
                assert(s@ =~= stock_title(k) + " changed by "@ + int_text(v as int) + ". Current: "@
                    + int_text(stock(*res, k)));
                add_line(state, s, LogTone::Success);
            },
        }
    }
}

/// Runs "res", as `res_effect` states.
fn run_res(args: &Vec<Vec<char>>, state: &mut DebugConsoleState, res: &mut FactionResources)
    requires
        match res_amounts(words_view(args@)) {
            Some((e, p, s, f)) => fits_i32(old(res).energy + e) && fits_i32(old(res).production + p)
                && fits_i32(old(res).science + s) && fits_i32(old(res).food + f),
            None => true,
        },
    ensures
        final(state).log_lines() == with_logs(
            old(state).log_lines(),
            res_effect(words_view(args@), *old(res)).0,
        ),
        *final(res) == res_effect(words_view(args@), *old(res)).1,
        final(state).same_but_log(*old(state)),
{
    match res_amounts_exec(args) {
        None => add_line(
            state,
            String::from_str("Usage: res <energy> <production> <science> <food>"),
            LogTone::Error,
        ),
        Some((e, p, sc, f)) => {
            res.energy = res.energy + e;
            res.production = res.production + p;
            res.science = res.science + sc;
            res.food = res.food + f;
            let mut s = String::from_str("Resources added: E:");
            push_signed(&mut s, e as i64);
            string_append(&mut s, ", P:");
            push_signed(&mut s, p as i64);
            string_append(&mut s, ", S:");
            push_signed(&mut s, sc as i64);
            string_append(&mut s, ", F:");
            push_signed(&mut s, f as i64);
            assert(s@ =~= "Resources added: E:"@ + signed_text(e as int) + ", P:"@ + signed_text(
                p as int,
            ) + ", S:"@ + signed_text(sc as int) + ", F:"@ + signed_text(f as int));
            add_line(state, s, LogTone::Success);
        },
    }
}

/// Reports an unknown command word.
fn run_unknown(cmd: &Vec<char>, state: &mut DebugConsoleState)
    ensures
        final(state).log_lines() == with_logs(
            old(state).log_lines(),
            one_line("Unknown command: '"@ + cmd@ + "'. Type 'help' for command list."@, LogTone::Error),
        ),
        final(state).same_but_log(*old(state)),
{
    let mut s = String::from_str("Unknown command: '");
    push_chars(&mut s, cmd);
    string_append(&mut s, "'. Type 'help' for command list.");
    add_line(state, s, LogTone::Error);
}

/// Runs a command word (already in lower case) with its arguments, as
/// `command_effect` states: the printed lines go to the log (or the log is
/// cleared), the resources change, and the hex the camera is to jump to is
/// returned. The camera jump itself, and its report line, are the caller's.
pub fn run_command(
    cmd: &Vec<char>,
    args: &Vec<Vec<char>>,
    state: &mut DebugConsoleState,
    res: &mut FactionResources,
) -> (jump: Option<HexCoord>)
    requires
        command_in_range(cmd@, words_view(args@), *old(res)),
    ensures
        ({
            let (lines, clears, r2, target) = command_effect(cmd@, words_view(args@), *old(res));
            &&& final(state).log_lines() == (if clears {
                Seq::<(Seq<char>, LogTone)>::empty()
            } else {
                with_logs(old(state).log_lines(), lines)
            })
            &&& *final(res) == r2
            &&& jump == target
        }),
        final(state).same_but_log(*old(state)),
{
    let ghost a = words_view(args@);
    if eq_literal(cmd, "help") {
        run_help(state);
        None
    } else if eq_literal(cmd, "clear") || eq_literal(cmd, "cls") {
        state.clear_logs();
        None
    } else if eq_literal(cmd, "turn") {
        run_turn(args, state, res);
        None
    } else {
        match stock_of_command_exec(cmd) {
            Some(k) => {
                proof {
                    if args@.len() > 0 {
                        assert(a[0] == args@[0]@);
                    }
                }
                run_stock(k, args, state, res);
                None
            },
            None => {
                if eq_literal(cmd, "res") || eq_literal(cmd, "resources") {
                    run_res(args, state, res);
                    None
                } else if eq_literal(cmd, "goto") || eq_literal(cmd, "cam") {
                    match goto_target_exec(args) {
                        None => {
                            add_line(state, String::from_str("Usage: goto <q> <r>"), LogTone::Error);
                            None
                        },
                        Some(c) => {
                            proof {
                                assert(with_logs(state.log_lines(), Seq::empty()) == state.log_lines());
                            }
                            Some(c)
                        },
                    }
                } else {
                    run_unknown(cmd, state);
                    None
                }
            },
        }
    }
}

/// The outcome of a console command line.
#[derive(Debug, Clone, Copy, PartialEq, Eq, Structural)]
pub enum CommandStatus {
    /// The line held only white space; nothing happened.
    Blank,
    /// The command ran; it may name a hex for the camera to jump to.
    Ran(Option<HexCoord>),
    /// The command would carry a stockpile or the turn number out of its
    /// integer type; nothing happened.
    OutOfRange,
}

proof fn lemma_trim_end_last(s: Seq<char>)
    ensures
        trim_end(s).len() > 0 ==> !white_space(trim_end(s).last()),
    decreases s.len(),
{
    if s.len() > 0 && white_space(s.last()) {
        lemma_trim_end_last(s.drop_last());
    }
}

/// A line that is not blank after trimming has a first word.
proof fn lemma_trimmed_has_word(s: Seq<char>)
    requires
        trim(s).len() > 0,
    ensures
        words(trim(s)).len() > 0,
{
    lemma_trim_end_last(trim_start(s));
}

/// The log, resources and outcome after a console line runs: the line is
/// trimmed and a blank line does nothing; otherwise its first word, in lower
/// case, is the command and the other words its arguments. A command that
/// would carry a number out of its integer type does nothing. Any other
/// command is echoed after "> " and then acts as `command_effect` states.
pub open spec fn line_outcome(
    raw: Seq<char>,
    log: Seq<(Seq<char>, LogTone)>,
    r: FactionResources,
) -> (Seq<(Seq<char>, LogTone)>, FactionResources, CommandStatus) {
    let t = trim(raw);
    let cmd = lowercase(words(t)[0]);
    let args = words(t).drop_first();
    if t.len() == 0 {
        (log, r, CommandStatus::Blank)
    } else if !command_in_range(cmd, args, r) {
        (log, r, CommandStatus::OutOfRange)
    } else {
        let echoed = with_log(log, ("> "@ + t, LogTone::Echo));
        let (lines, clears, r2, target) = command_effect(cmd, args, r);
        (
            if clears {
                Seq::<(Seq<char>, LogTone)>::empty()
            } else {
                with_logs(echoed, lines)
            },
            r2,
            CommandStatus::Ran(target),
        )
    }
}

/// Runs a line typed into the console. The line is trimmed; a blank line
/// does nothing. Otherwise the trimmed line is echoed after "> ", its first
/// word is taken in lower case as the command and the other words as its
/// arguments, and the command runs as `command_effect` states. A command that
/// would carry a number out of its integer type does nothing and is reported
/// as out of range.
pub fn execute_command(raw: &str, state: &mut DebugConsoleState, res: &mut FactionResources) -> (st:
    CommandStatus)
    ensures
        (final(state).log_lines(), *final(res), st) == line_outcome(
            raw@,
            old(state).log_lines(),
            *old(res),
        ),
        trim(raw@).len() > 0 ==> words(trim(raw@)).len() > 0,
        final(state).same_but_log(*old(state)),
{
    let cs = chars_of(raw);
    let t = trim_chars(&cs);
    if t.len() == 0 {
        return CommandStatus::Blank;
    }
    proof {
        lemma_trimmed_has_word(cs@);
    }
    let mut ws = split_words(&t);
    let ghost all = words_view(ws@);
    let first = ws.remove(0);
    let cmd = to_lowercase(&first);
    proof {
        assert(words_view(ws@) =~= all.drop_first());
    }
    if !command_fits(&cmd, &ws, res) {
        return CommandStatus::OutOfRange;
    }
    let mut echo = String::from_str("> ");
    push_chars(&mut echo, &t);
    state.add_log(echo, LogTone::Echo);
    let jump = run_command(&cmd, &ws, state, res);
    CommandStatus::Ran(jump)
}

/// A stockpile command undoes itself with the opposite amount: adding `v`
/// and then `-v` to a stockpile gives the resources back.
pub proof fn lemma_stock_change_undone(r: FactionResources, k: ResourceKind, v: i32)
    requires
        fits_i32(stock(r, k) + v),
        v > i32::MIN,
    ensures
        add_stock(add_stock(r, k, v as int), k, -v) == r,
        stock(add_stock(r, k, v as int), k) == stock(r, k) + v,
{
}

/// Only "turn", the stockpile commands and "res" change the resources;
/// every command but "clear" keeps the log's earlier lines.
pub proof fn lemma_resources_change_only_by_resource_commands(
    cmd: Seq<char>,
    args: Seq<Seq<char>>,
    r: FactionResources,
)
    requires
        cmd != "turn"@,
        stock_of_command(cmd) is None,
        cmd != "res"@,
        cmd != "resources"@,
    ensures
        command_effect(cmd, args, r).2 == r,
        command_effect(cmd, args, r).1 <==> (cmd == "clear"@ || cmd == "cls"@),
{
    reveal_strlit("help");
    reveal_strlit("clear");
    reveal_strlit("cls");
}

/// "res" (or "resources") with four numbers adds each number to its own
/// stockpile, in the order energy, production, science, food, and changes
/// nothing else: not the turn, not the income, and it does not clear the
/// log or move the camera.
pub proof fn lemma_res_adds_each_amount(
    cmd: Seq<char>,
    args: Seq<Seq<char>>,
    r: FactionResources,
    e: i32,
    p: i32,
    s: i32,
    f: i32,
)
    requires
        cmd == "res"@ || cmd == "resources"@,
        args.len() >= 4,
        parsed_i32(args[0]) == Some(e),
        parsed_i32(args[1]) == Some(p),
        parsed_i32(args[2]) == Some(s),
        parsed_i32(args[3]) == Some(f),
        fits_i32(r.energy + e),
        fits_i32(r.production + p),
        fits_i32(r.science + s),
        fits_i32(r.food + f),
    ensures
        ({
            let (_, clears, r2, target) = command_effect(cmd, args, r);
            &&& r2.energy == r.energy + e
            &&& r2.production == r.production + p
            &&& r2.science == r.science + s
            &&& r2.food == r.food + f
            &&& r2.turn == r.turn
            &&& r2.energy_per_turn == r.energy_per_turn
            &&& r2.production_per_turn == r.production_per_turn
            &&& r2.science_per_turn == r.science_per_turn
            &&& r2.food_per_turn == r.food_per_turn
            &&& !clears
            &&& target is None
        }),
{
    reveal_strlit("res");
    reveal_strlit("resources");
    reveal_strlit("help");
    reveal_strlit("clear");
    reveal_strlit("cls");
    reveal_strlit("turn");
    reveal_strlit("energy");
    reveal_strlit("prod");
    reveal_strlit("production");
    reveal_strlit("sci");
    reveal_strlit("science");
    reveal_strlit("food");
    reveal_strlit("goto");
    reveal_strlit("cam");
    assert(cmd.len() == 3 || cmd.len() == 9);
    assert(cmd[0] == 'r');
    assert(cmd != "help"@ && cmd != "clear"@ && cmd != "turn"@ && cmd != "energy"@ && cmd
        != "prod"@ && cmd != "production"@ && cmd != "food"@ && cmd != "science"@);
    assert(cmd != "cls"@) by {
        if cmd.len() == 3 {
            assert(cmd[0] != "cls"@[0]);
        }
    }
    assert(cmd != "sci"@) by {
        if cmd.len() == 3 {
            assert(cmd[0] != "sci"@[0]);
        }
    }
    assert(stock_of_command(cmd) is None);
    assert(res_amounts(args) == Some((e, p, s, f)));
}

/// A stockpile command with a number adds it to the stockpile its word
/// names and to no other: "energy" to energy, "prod" or "production" to
/// production, "sci" or "science" to science, "food" to food. The turn and
/// the income stay as they were.
pub proof fn lemma_stock_command_targets(cmd: Seq<char>, args: Seq<Seq<char>>, r: FactionResources, v: i32)
    requires
        args.len() >= 1,
        parsed_i32(args[0]) == Some(v),
        cmd == "energy"@ ==> fits_i32(r.energy + v),
        cmd == "prod"@ || cmd == "production"@ ==> fits_i32(r.production + v),
        cmd == "sci"@ || cmd == "science"@ ==> fits_i32(r.science + v),
        cmd == "food"@ ==> fits_i32(r.food + v),
    ensures
        ({
            let r2 = command_effect(cmd, args, r).2;
            &&& cmd == "energy"@ ==> r2 == FactionResources { energy: (r.energy + v) as i32, ..r }
            &&& cmd == "prod"@ || cmd == "production"@ ==> r2 == FactionResources {
                production: (r.production + v) as i32,
                ..r
            }
            &&& cmd == "sci"@ || cmd == "science"@ ==> r2 == FactionResources {
                science: (r.science + v) as i32,
                ..r
            }
            &&& cmd == "food"@ ==> r2 == FactionResources { food: (r.food + v) as i32, ..r }
        }),
{
    reveal_strlit("help");
    reveal_strlit("clear");
    reveal_strlit("cls");
    reveal_strlit("turn");
    reveal_strlit("energy");
    reveal_strlit("prod");
    reveal_strlit("production");
    reveal_strlit("sci");
    reveal_strlit("science");
    reveal_strlit("food");
    let not_earlier = cmd != "help"@ && cmd != "clear"@ && cmd != "cls"@ && cmd != "turn"@;
    if cmd == "energy"@ {
        assert(not_earlier);
        assert(stock_of_command(cmd) == Some(ResourceKind::Energy));
    } else if cmd == "prod"@ || cmd == "production"@ {
        assert(cmd[0] == 'p');
        assert(not_earlier);
        assert(stock_of_command(cmd) == Some(ResourceKind::Production));
    } else if cmd == "sci"@ || cmd == "science"@ {
        assert(cmd[0] == 's');
        assert(not_earlier);
        assert(stock_of_command(cmd) == Some(ResourceKind::Science));
    } else if cmd == "food"@ {
        assert(cmd[0] == 'f');
        assert(not_earlier);
        assert(stock_of_command(cmd) == Some(ResourceKind::Food));
    }
}

} // verus!
