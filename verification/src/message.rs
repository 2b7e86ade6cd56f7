//! Rendering of diagnostic lines.
//!
//! A message is a template plus an ordered list of argument texts. Each `{}`
//! placeholder in the template is replaced, left to right, by the next
//! argument. [`debug_line`] and [`verbose_line`] consult the corresponding
//! flag first and render only when it is enabled, so a suppressed message
//! costs no formatting work and produces no line at all.

use vstd::prelude::*;
use vstd::string::*;

use crate::flags::{is_debug, is_verbose, spec_is_debug, spec_is_verbose, FlagStore};

verus! {

/// The texts of `args`, each argument as its sequence of characters.
pub open spec fn spec_args(args: Seq<String>) -> Seq<Seq<char>> {
    args.map_values(|a: String| a@)
}

/// `template` with each `{}` placeholder replaced, left to right, by the
/// next argument. A placeholder that has no argument left is kept literally,
/// and arguments beyond the last placeholder are ignored.
pub open spec fn spec_render(template: Seq<char>, args: Seq<Seq<char>>) -> Seq<char>
    decreases template.len(),
{
    if template.len() == 0 {
        Seq::empty()
    } else if template.len() >= 2 && template[0] == '{' && template[1] == '}' && args.len() > 0 {
        args[0] + spec_render(template.skip(2), args.skip(1))
    } else {
        seq![template[0]] + spec_render(template.skip(1), args)
    }
}

/// Substitute the arguments into the template.
pub fn render(template: &str, args: &Vec<String>) -> (line: String)
    ensures
        line@ == spec_render(template@, spec_args(args@)),
{
    let n = template.unicode_len();
    let mut line = String::new();
    let mut i: usize = 0;
    let mut next_arg: usize = 0;
    proof {
        assert(template@.skip(0) =~= template@);
        assert(spec_args(args@).skip(0) =~= spec_args(args@));
        assert(line@ + spec_render(template@, spec_args(args@))
            =~= spec_render(template@, spec_args(args@)));
    }
    while i < n
        invariant
            n == template@.len(),
            i <= n,
            next_arg <= args@.len(),
            spec_render(template@, spec_args(args@)) == line@ + spec_render(
                template@.skip(i as int),
                spec_args(args@).skip(next_arg as int),
            ),
        decreases n - i,
    {
        let ghost t = template@;
        let ghost all_args = spec_args(args@);
        let ghost rest = t.skip(i as int);
        let ghost rem_args = all_args.skip(next_arg as int);
        let ghost line_before = line@;
        let c = template.get_char(i);
        if c == '{' && i + 1 < n && template.get_char(i + 1) == '}' && next_arg < args.len() {
            line.append(args[next_arg].as_str());
            proof {
                assert(rest.len() >= 2 && rest[0] == '{' && rest[1] == '}'
                    && rem_args.len() > 0);
                assert(rest.skip(2) =~= t.skip(i + 2));
                assert(rem_args.skip(1) =~= all_args.skip(next_arg + 1));
                assert(rem_args[0] == all_args[next_arg as int]);
                assert(line@ =~= line_before + rem_args[0]);
                assert(line_before + (rem_args[0] + spec_render(
                    t.skip(i + 2),
                    all_args.skip(next_arg + 1),
                )) =~= line@ + spec_render(t.skip(i + 2), all_args.skip(next_arg + 1)));
            }
            i = i + 2;
            next_arg = next_arg + 1;
        } else {
            let piece = template.substring_char(i, i + 1);
            line.append(piece);
            proof {
                assert(piece@ =~= seq![t[i as int]]);
                assert(rest.skip(1) =~= t.skip(i + 1));
                assert(line_before + (seq![rest[0]] + spec_render(t.skip(i + 1), rem_args))
                    =~= line@ + spec_render(t.skip(i + 1), rem_args));
            }
            i = i + 1;
        }
    }
    proof {
        assert(template@.skip(i as int) =~= Seq::<char>::empty());
        assert(line@ + spec_render(
            template@.skip(i as int),
            spec_args(args@).skip(next_arg as int),
        ) =~= line@);
    }
    line
}

/// The debug line for `template` and `args`: a line is produced exactly
/// when the debug flag is enabled, and it is then the rendered text. When
/// the flag is off, nothing is rendered and `None` comes back.
pub fn debug_line(store: &FlagStore, template: &str, args: &Vec<String>) -> (line: Option<
    String,
>)
    ensures
        line is Some <==> spec_is_debug(store@),
        line matches Some(l) ==> l@ == spec_render(template@, spec_args(args@)),
{
    if is_debug(store) {
        Some(render(template, args))
    } else {
        None
    }
}

/// The verbose line for `template` and `args`, symmetric to [`debug_line`]:
/// produced exactly when the verbose flag is enabled.
pub fn verbose_line(store: &FlagStore, template: &str, args: &Vec<String>) -> (line: Option<
    String,
>)
    ensures
        line is Some <==> spec_is_verbose(store@),
        line matches Some(l) ==> l@ == spec_render(template@, spec_args(args@)),
{
    if is_verbose(store) {
        Some(render(template, args))
    } else {
        None
    }
}

} // verus!
