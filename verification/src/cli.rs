//! Command dispatch and the read-eval-print shell's step function.
//!
//! The dispatcher turns a token list into effects: output spans, state
//! mutation, and persistence requests. Work that the library cannot do
//! itself — parsing and formatting 64-bit floats, and evaluating an
//! expression — is handed back to the caller as a request carrying plain
//! values, and a completion function takes the collaborator's answer and
//! produces the effects under an exact contract.

use vstd::prelude::*;
use crate::colors::{lemma_spans_model_push, plain, spans_model, Colors, Span};
use crate::context::Context;
use crate::text::str_eq;
use crate::text::tokens_of;

verus! {

broadcast use vstd::string::group_string_axioms;

/// What a dispatched command asks of the process: text to show and files
/// to rewrite.
pub struct Effects {
    pub output: Vec<Span>,
    pub persist_constants: bool,
    pub persist_colors: bool,
}

/// The dispatcher's outcome: either finished effects, or a request for
/// work that only a collaborator can do, with the plain values it needs.
pub enum Step {
    /// The command is fully handled.
    Done(Effects),
    /// `set <name> <raw_value>`: the raw value text must be read as a
    /// 64-bit float; the answer goes to [`Cli::finish_set`].
    Parse(String, String),
    /// `consts`: each value's bit pattern must be written as decimal
    /// text; the answers go to [`Cli::consts_output`].
    Formats(Vec<u64>),
    /// A bare expression: it must be evaluated against the given
    /// name/value bindings; the answer goes to [`Cli::evaluation_output`].
    Eval(String, Vec<(String, u64)>),
}

/// The reserved command names.
pub open spec fn is_command_name(t: Seq<char>) -> bool {
    t == "help"@ || t == "set"@ || t == "consts"@ || t == "color"@
}

/// The recognized color slot names.
pub open spec fn valid_slot(t: Seq<char>) -> bool {
    t == "primary"@ || t == "secondary"@ || t == "failure"@
}

/// The named slot holds `val` and the other two slots are unchanged.
pub open spec fn slot_updated(pre: Colors, post: Colors, slot: Seq<char>, val: Seq<char>) -> bool {
    &&& (slot == "primary"@ ==> post.primary@ == val && post.secondary == pre.secondary
        && post.failure == pre.failure)
    &&& (slot == "secondary"@ ==> post.secondary@ == val && post.primary == pre.primary
        && post.failure == pre.failure)
    &&& (slot == "failure"@ ==> post.failure@ == val && post.primary == pre.primary
        && post.secondary == pre.secondary)
}

/// The usage text of the help command, as decorated spans.
pub open spec fn help_model(c: Colors) -> Seq<(Option<Seq<char>>, Seq<char>)> {
    seq![
        (Some(c.primary@), "Clic - A simple CLI calculator"@),
        (None, "\n\n"@),
        (Some(c.secondary@), "Basic usage"@),
        (
            None,
            "\n    clic - enter shell mode\n    clic \"sqrt(3)\" - evaluate a math expresssion\n    clic help [topic] - view help\n\n"@,
        ),
        (Some(c.secondary@), "Constants"@),
        (
            None,
            "\n    clic set <name> <value> - create a custom constant\n    clic consts - view custom constants\n\n"@,
        ),
        (Some(c.secondary@), "Colors"@),
        (
            None,
            "\n    clic color <primary/secondary/failure> <color> - set a color\n    ~ For color names, please refer to "@,
        ),
        (Some(c.secondary@), "https://github.com/mackwic/colored#colors"@),
        (None, "\n"@),
    ]
}

/// The failure message shown when `color` is missing an argument.
pub open spec fn color_usage_model(c: Colors) -> Seq<(Option<Seq<char>>, Seq<char>)> {
    seq![
        (Some(c.failure@), "Usage: color <primary/secondary/failure> <color>"@),
        (None, "\n"@),
    ]
}

/// The failure message shown when `set` is missing an argument.
pub open spec fn set_usage_model(c: Colors) -> Seq<(Option<Seq<char>>, Seq<char>)> {
    seq![(Some(c.failure@), "Usage: set <name> <value>"@), (None, "\n"@)]
}

/// The failure message shown for an unrecognized color slot.
pub open spec fn invalid_slot_model(c: Colors) -> Seq<(Option<Seq<char>>, Seq<char>)> {
    seq![
        (Some(c.failure@), "Invalid key, available: primary, secondary, failure"@),
        (None, "\n"@),
    ]
}

/// One line of the constants listing.
pub open spec fn const_line(name: Seq<char>, value_text: Seq<char>) -> Seq<char> {
    "    "@ + name + " = "@ + value_text + "\n"@
}

/// The lines of the constants listing, one per entry, each showing the
/// entry's name and the formatted text of its value.
pub open spec fn const_lines(entries: Seq<(String, u64)>, formatted: Seq<Seq<char>>) -> Seq<
    (Option<Seq<char>>, Seq<char>),
> {
    Seq::new(entries.len(), |i: int| (None, const_line(entries[i].0@, formatted[i])))
}

/// The whole constants listing: heading, one line per constant, and the
/// pointer to the built-in constants.
pub open spec fn consts_model(
    c: Colors,
    entries: Seq<(String, u64)>,
    formatted: Seq<Seq<char>>,
) -> Seq<(Option<Seq<char>>, Seq<char>)> {
    seq![(Some(c.primary@), "Custom constants"@), (None, "\n"@)] + const_lines(entries, formatted)
        + seq![
        (None, "For built-in constants, please refer to "@),
        (Some(c.secondary@), "https://github.com/rekka/meval-rs#supported-expressions"@),
        (None, "\n"@),
    ]
}

/// The output of an expression evaluation: the result prefixed with `= `
/// in the primary color, or the evaluator's message in the failure color.
pub open spec fn eval_model(c: Colors, outcome: Result<Seq<char>, Seq<char>>) -> Seq<
    (Option<Seq<char>>, Seq<char>),
> {
    match outcome {
        Ok(t) => seq![(Some(c.primary@), "= "@ + t), (None, "\n"@)],
        Err(m) => seq![(Some(c.failure@), m), (None, "\n"@)],
    }
}

/// What dispatching `args` does: how the new state `post` relates to the
/// old state `pre`, and which step comes out.
pub open spec fn dispatch_post(pre: Cli, post: Cli, args: Seq<Seq<char>>, s: Step) -> bool {
    &&& (args[0] == "help"@ ==> post == pre && (s matches Step::Done(e) && spans_model(e.output@)
        == help_model(pre.colors) && !e.persist_constants && !e.persist_colors))
    &&& (args[0] == "set"@ && args.len() >= 3 ==> post == pre && (s matches Step::Parse(name, raw)
        && name@ == args[1] && raw@ == args[2]))
    &&& (args[0] == "set"@ && args.len() < 3 ==> post == pre && (s matches Step::Done(e)
        && spans_model(e.output@) == set_usage_model(pre.colors) && !e.persist_constants
        && !e.persist_colors))
    &&& (args[0] == "consts"@ ==> post == pre && (s matches Step::Formats(bits) && bits@
        == pre.context.variables@.map_values(|p: (String, u64)| p.1)))
    &&& (args[0] == "color"@ && args.len() < 3 ==> post == pre && (s matches Step::Done(e)
        && spans_model(e.output@) == color_usage_model(pre.colors) && !e.persist_constants
        && !e.persist_colors))
    &&& (args[0] == "color"@ && args.len() >= 3 && valid_slot(args[1]) ==> post.context
        == pre.context && slot_updated(pre.colors, post.colors, args[1], args[2]) && (
    s matches Step::Done(e) && e.output@.len() == 0 && !e.persist_constants && e.persist_colors))
    &&& (args[0] == "color"@ && args.len() >= 3 && !valid_slot(args[1]) ==> post == pre && (
    s matches Step::Done(e) && spans_model(e.output@) == invalid_slot_model(pre.colors)
        && !e.persist_constants && !e.persist_colors))
    &&& (!is_command_name(args[0]) ==> post == pre && (s matches Step::Eval(expr, bindings)
        && expr@ == args[0] && bindings@ == pre.context.variables@))
}

/// Every constant of the mapping is shown by the constants listing: for a
/// mapped pair there is an entry whose listing line carries the
/// constant's name and the formatted text of its value. Together with
/// `Context::set_constant`, which puts the pair into the mapping, this
/// says that a `set` followed by `consts` shows the new constant.
pub proof fn lemma_constant_listed(c: Cli, formatted: Seq<Seq<char>>, name: Seq<char>, bits: u64)
    requires
        c.wf(),
        c.context.as_map().contains_pair(name, bits),
        formatted.len() == c.context.variables@.len(),
    ensures
        exists|j: int|
            0 <= j < c.context.variables@.len() && c.context.variables@[j].0@ == name
                && c.context.variables@[j].1 == bits && consts_model(
                c.colors,
                c.context.variables@,
                formatted,
            )[j + 2] == (None::<Seq<char>>, const_line(name, formatted[j])),
{
    crate::context::lemma_map_of_pair(c.context.variables@, name, bits);
    let j = choose|j: int|
        0 <= j < c.context.variables@.len() && c.context.variables@[j].0@ == name
            && c.context.variables@[j].1 == bits;
    assert(consts_model(c.colors, c.context.variables@, formatted)[j + 2] == (
        None::<Seq<char>>,
        const_line(name, formatted[j]),
    ));
}

/// What the line editor handed the shell: a full line, an end-of-input
/// or interrupt signal, or an unexpected editor error with its
/// description.
pub enum ReadEvent {
    Line(String),
    EndOfInput,
    Failure(String),
}

/// How the shell goes on after a step: read the next line, or leave the
/// read loop.
pub enum Control {
    Continue,
    Stop,
}

/// What one shell step asks of the process: a line to append to the
/// history, a dispatched step to complete, text to show, and how to go
/// on.
pub struct ShellTurn {
    pub add_history: Option<String>,
    pub dispatch: Option<Step>,
    pub output: Vec<Span>,
    pub control: Control,
}

/// The token list that a shell input line dispatches: whitespace-split
/// tokens when the line starts with `help`, `set` or `color`, nothing
/// for a blank line, and otherwise the whole unsplit line as a single
/// expression token.
pub open spec fn shell_arguments_of(line: Seq<char>) -> Seq<Seq<char>> {
    let toks = tokens_of(line);
    if toks.len() == 0 {
        seq![]
    } else if toks[0] == "help"@ || toks[0] == "set"@ || toks[0] == "color"@ {
        toks
    } else {
        seq![line]
    }
}

/// The calculator's state: the constant environment and the color profile.
pub struct Cli {
    pub context: Context,
    pub colors: Colors,
}

impl Cli {
    /// The environment's names are unique.
    pub open spec fn wf(self) -> bool {
        self.context.wf()
    }

    /// A calculator with no persisted state: an empty environment and the
    /// default color profile.
    pub fn new() -> (c: Cli)
        ensures
            c.wf(),
            c.context.as_map() == Map::<Seq<char>, u64>::empty(),
            c.colors.is_default(),
    {
        Cli { context: Context::build(None), colors: Colors::build(None) }
    }

    /// A calculator over an already rebuilt environment and profile.
    pub fn from_parts(context: Context, colors: Colors) -> (c: Cli)
        ensures
            c.context == context,
            c.colors == colors,
    {
        Cli { context, colors }
    }

    /// Routes a token list to its command, or treats the first token as an
    /// expression. A `set` or `color` without both its arguments is a
    /// usage error: reported, and nothing changes.
    pub fn execute_command(&mut self, arguments: &Vec<String>) -> (s: Step)
        requires
            old(self).wf(),
            arguments.deep_view().len() >= 1,
        ensures
            final(self).wf(),
            dispatch_post(*old(self), *final(self), arguments.deep_view(), s),
    {
        proof {
            reveal_strlit("help");
            reveal_strlit("set");
            reveal_strlit("consts");
            reveal_strlit("color");
            assert(arguments.deep_view()[0] == arguments@[0]@);
        }
        if str_eq(arguments[0].as_str(), "help") {
            Step::Done(
                Effects {
                    output: self.help_spans(),
                    persist_constants: false,
                    persist_colors: false,
                },
            )
        } else if str_eq(arguments[0].as_str(), "set") {
            if arguments.len() < 3 {
                let out = vec![self.colors.failure("Usage: set <name> <value>".to_owned()), plain("\n")];
                proof {
                    assert(spans_model(out@) =~~= set_usage_model(self.colors));
                }
                Step::Done(
                    Effects { output: out, persist_constants: false, persist_colors: false },
                )
            } else {
                proof {
                    assert(arguments.deep_view()[1] == arguments@[1]@);
                    assert(arguments.deep_view()[2] == arguments@[2]@);
                }
                Step::Parse(arguments[1].clone(), arguments[2].clone())
            }
        } else if str_eq(arguments[0].as_str(), "consts") {
            let entries = self.context.get_constants();
            let n = entries.len();
            let mut bits: Vec<u64> = Vec::new();
            let mut i: usize = 0;
            while i < n
                invariant
                    n == entries@.len(),
                    0 <= i <= n,
                    bits@ =~= entries@.subrange(0, i as int).map_values(|p: (String, u64)| p.1),
                decreases n - i,
            {
                bits.push(entries[i].1);
                proof {
                    assert(entries@.subrange(0, i + 1).drop_last() =~= entries@.subrange(
                        0,
                        i as int,
                    ));
                    assert(bits@ =~= entries@.subrange(0, i + 1).map_values(
                        |p: (String, u64)| p.1,
                    ));
                }
                i = i + 1;
            }
            proof {
                assert(entries@.subrange(0, n as int) =~= entries@);
            }
            Step::Formats(bits)
        } else if str_eq(arguments[0].as_str(), "color") {
            if arguments.len() < 3 {
                let out = vec![
                    self.colors.failure("Usage: color <primary/secondary/failure> <color>".to_owned()),
                    plain("\n"),
                ];
                proof {
                    assert(spans_model(out@) =~~= color_usage_model(self.colors));
                }
                Step::Done(
                    Effects { output: out, persist_constants: false, persist_colors: false },
                )
            } else {
                proof {
                    assert(arguments.deep_view()[1] == arguments@[1]@);
                    assert(arguments.deep_view()[2] == arguments@[2]@);
                    reveal_strlit("primary");
                    reveal_strlit("secondary");
                    reveal_strlit("failure");
                }
                let ghost pre_colors = self.colors;
                let updated = self.colors.set(arguments[1].as_str(), arguments[2].clone());
                if updated {
                    Step::Done(
                        Effects {
                            output: Vec::new(),
                            persist_constants: false,
                            persist_colors: true,
                        },
                    )
                } else {
                    let out = vec![
                        self.colors.failure(
                            "Invalid key, available: primary, secondary, failure".to_owned(),
                        ),
                        plain("\n"),
                    ];
                    proof {
                        assert(spans_model(out@) =~~= invalid_slot_model(self.colors));
                    }
                    Step::Done(
                        Effects { output: out, persist_constants: false, persist_colors: false },
                    )
                }
            }
        } else {
            let entries = self.context.get_constants();
            let n = entries.len();
            let mut bindings: Vec<(String, u64)> = Vec::new();
            let mut i: usize = 0;
            while i < n
                invariant
                    n == entries@.len(),
                    0 <= i <= n,
                    bindings@ =~= entries@.subrange(0, i as int),
                decreases n - i,
            {
                bindings.push((entries[i].0.clone(), entries[i].1));
                proof {
                    assert(bindings@ =~= entries@.subrange(0, i + 1));
                }
                i = i + 1;
            }
            proof {
                assert(entries@.subrange(0, n as int) =~= entries@);
            }
            Step::Eval(arguments[0].clone(), bindings)
        }
    }

    /// The help command's spans; the optional topic is ignored and the
    /// same usage text comes out either way.
    fn help_spans(&self) -> (out: Vec<Span>)
        ensures
            spans_model(out@) == help_model(self.colors),
    {
        let out = vec![
            self.colors.primary("Clic - A simple CLI calculator".to_owned()),
            plain("\n\n"),
            self.colors.secondary("Basic usage".to_owned()),
            plain(
                "\n    clic - enter shell mode\n    clic \"sqrt(3)\" - evaluate a math expresssion\n    clic help [topic] - view help\n\n",
            ),
            self.colors.secondary("Constants".to_owned()),
            plain(
                "\n    clic set <name> <value> - create a custom constant\n    clic consts - view custom constants\n\n",
            ),
            self.colors.secondary("Colors".to_owned()),
            plain(
                "\n    clic color <primary/secondary/failure> <color> - set a color\n    ~ For color names, please refer to ",
            ),
            self.colors.secondary("https://github.com/mackwic/colored#colors".to_owned()),
            plain("\n"),
        ];
        proof {
            assert(spans_model(out@) =~~= help_model(self.colors));
        }
        out
    }

    /// Completes a `set` command once the collaborator has read the raw
    /// value text: a valid value is inserted and the whole mapping is to
    /// be persisted; an invalid one is reported and nothing changes.
    pub fn finish_set(&mut self, name: String, parsed: Option<u64>) -> (e: Effects)
        requires
            old(self).wf(),
        ensures
            final(self).wf(),
            (match parsed {
                Some(bits) => final(self).colors == old(self).colors
                    && final(self).context.as_map() == old(self).context.as_map().insert(
                    name@,
                    bits,
                ) && e.persist_constants && !e.persist_colors && e.output@.len() == 0,
                None => *final(self) == *old(self) && !e.persist_constants && !e.persist_colors
                    && spans_model(e.output@) == seq![
                    (None::<Seq<char>>, "Error: Invalid constant value\n"@),
                ],
            }),
    {
        match parsed {
            Some(bits) => {
                self.context.set_constant(name, bits);
                Effects { output: Vec::new(), persist_constants: true, persist_colors: false }
            },
            None => {
                let out = vec![plain("Error: Invalid constant value\n")];
                proof {
                    assert(spans_model(out@) =~~= seq![
                        (None::<Seq<char>>, "Error: Invalid constant value\n"@),
                    ]);
                }
                Effects { output: out, persist_constants: false, persist_colors: false }
            },
        }
    }

    /// The constants listing, once the collaborator has written each
    /// value's bit pattern as decimal text, in entry order.
    pub fn consts_output(&self, formatted: &Vec<String>) -> (e: Effects)
        requires
            formatted.deep_view().len() == self.context.variables@.len(),
        ensures
            spans_model(e.output@) == consts_model(
                self.colors,
                self.context.variables@,
                formatted.deep_view(),
            ),
            !e.persist_constants,
            !e.persist_colors,
    {
        let mut out: Vec<Span> = Vec::new();
        out.push(self.colors.primary("Custom constants".to_owned()));
        out.push(plain("\n"));
        let entries = self.context.get_constants();
        let n = entries.len();
        let mut i: usize = 0;
        proof {
            assert(spans_model(out@) =~~= seq![
                (Some(self.colors.primary@), "Custom constants"@),
                (None::<Seq<char>>, "\n"@),
            ] + const_lines(entries@, formatted.deep_view()).take(0));
        }
        while i < n
            invariant
                n == entries@.len(),
                entries@ == self.context.variables@,
                formatted.deep_view().len() == n,
                formatted@.len() == n,
                0 <= i <= n,
                spans_model(out@) =~~= seq![
                    (Some(self.colors.primary@), "Custom constants"@),
                    (None::<Seq<char>>, "\n"@),
                ] + const_lines(entries@, formatted.deep_view()).take(i as int),
            decreases n - i,
        {
            let mut line = "    ".to_owned();
            line.append(entries[i].0.as_str());
            line.append(" = ");
            line.append(formatted[i].as_str());
            line.append("\n");
            proof {
                assert(formatted.deep_view()[i as int] == formatted@[i as int]@);
                assert(line@ == const_line(entries@[i as int].0@, formatted.deep_view()[i as int]));
            }
            let ghost lv = line@;
            let ghost prev = out@;
            out.push(Span { color: None, text: line });
            proof {
                let ghost head = seq![
                    (Some(self.colors.primary@), "Custom constants"@),
                    (None::<Seq<char>>, "\n"@),
                ];
                let ghost cl = const_lines(entries@, formatted.deep_view());
                lemma_spans_model_push(prev, out@.last());
                assert(out@.last().model() == (None::<Seq<char>>, lv));
                assert(cl[i as int] == (None::<Seq<char>>, lv));
                assert(cl.take(i + 1) =~~= cl.take(i as int).push(cl[i as int]));
                assert(head + cl.take(i as int).push(cl[i as int]) =~~= (head + cl.take(
                    i as int,
                )).push(cl[i as int]));
                assert(spans_model(out@) =~~= head + cl.take(i + 1));
            }
            i = i + 1;
        }
        out.push(plain("For built-in constants, please refer to "));
        out.push(
            self.colors.secondary(
                "https://github.com/rekka/meval-rs#supported-expressions".to_owned(),
            ),
        );
        out.push(plain("\n"));
        proof {
            assert(const_lines(entries@, formatted.deep_view()).take(n as int) =~~= const_lines(
                entries@,
                formatted.deep_view(),
            ));
            assert(spans_model(out@) =~~= consts_model(
                self.colors,
                self.context.variables@,
                formatted.deep_view(),
            ));
        }
        Effects { output: out, persist_constants: false, persist_colors: false }
    }

    /// The output of a bare expression, once the collaborator has
    /// evaluated it: the formatted result, or the evaluator's message.
    pub fn evaluation_output(&self, outcome: Result<String, String>) -> (e: Effects)
        ensures
            spans_model(e.output@) == eval_model(
                self.colors,
                match outcome {
                    Ok(t) => Ok(t@),
                    Err(m) => Err(m@),
                },
            ),
            !e.persist_constants,
            !e.persist_colors,
    {
        match outcome {
            Ok(t) => {
                let mut msg = "= ".to_owned();
                msg.append(t.as_str());
                let out = vec![self.colors.primary(msg), plain("\n")];
                proof {
                    assert(spans_model(out@) =~~= eval_model(self.colors, Ok(t@)));
                }
                Effects { output: out, persist_constants: false, persist_colors: false }
            },
            Err(m) => {
                let ghost message = m@;
                let out = vec![self.colors.failure(m), plain("\n")];
                proof {
                    assert(spans_model(out@) =~~= eval_model(
                        self.colors,
                        Err::<Seq<char>, Seq<char>>(message),
                    ));
                }
                Effects { output: out, persist_constants: false, persist_colors: false }
            },
        }
    }

    /// Splits a shell input line into the token list to dispatch. A line
    /// whose first token is `help`, `set` or `color` is split on
    /// whitespace; any other non-blank line is one expression token, so
    /// expressions with spaces need no quoting in shell mode.
    pub fn parse_shell_arguments(line: String) -> (args: Vec<String>)
        ensures
            args.deep_view() == shell_arguments_of(line@),
    {
        let tokens = crate::text::tokenize(line.as_str());
        if tokens.is_empty() {
            let empty: Vec<String> = Vec::new();
            proof {
                assert(empty.deep_view() =~~= shell_arguments_of(line@));
            }
            empty
        } else {
            proof {
                assert(tokens.deep_view()[0] == tokens@[0]@);
            }
            let first_is_reserved = str_eq(tokens[0].as_str(), "help") || str_eq(
                tokens[0].as_str(),
                "set",
            ) || str_eq(tokens[0].as_str(), "color");
            if first_is_reserved {
                tokens
            } else {
                let single = vec![line];
                proof {
                    assert(single.deep_view() =~~= shell_arguments_of(single@[0]@));
                }
                single
            }
        }
    }

    /// One step of the read-eval-print shell: reacts to what the line
    /// editor produced. A full line goes to the history and, unless
    /// blank, is tokenized and dispatched; end-of-input leaves the loop,
    /// so that the history can be persisted; an unexpected editor error
    /// is reported in the failure color and leaves the loop too.
    pub fn shell_step(&mut self, event: ReadEvent) -> (t: ShellTurn)
        requires
            old(self).wf(),
        ensures
            final(self).wf(),
            (match event {
                ReadEvent::Line(line) => {
                    let args = shell_arguments_of(line@);
                    &&& (t.add_history matches Some(h) && h@ == line@)
                    &&& t.output@.len() == 0
                    &&& if args.len() == 0 {
                        &&& t.dispatch is None
                        &&& t.control is Continue
                        &&& *final(self) == *old(self)
                    } else {
                        &&& t.control is Continue
                        &&& (t.dispatch matches Some(s) && dispatch_post(
                            *old(self),
                            *final(self),
                            args,
                            s,
                        ))
                    }
                },
                ReadEvent::EndOfInput => {
                    &&& t.control is Stop
                    &&& *final(self) == *old(self)
                    &&& t.dispatch is None
                    &&& t.add_history is None
                    &&& t.output@.len() == 0
                },
                ReadEvent::Failure(msg) => {
                    &&& t.control is Stop
                    &&& *final(self) == *old(self)
                    &&& t.dispatch is None
                    &&& t.add_history is None
                    &&& spans_model(t.output@) == seq![
                        (Some(old(self).colors.failure@), "Unexpected error: "@ + msg@),
                        (None::<Seq<char>>, "\n"@),
                    ]
                },
            }),
    {
        match event {
            ReadEvent::Line(line) => {
                let history_entry = line.clone();
                let args = Self::parse_shell_arguments(line);
                if args.is_empty() {
                    ShellTurn {
                        add_history: Some(history_entry),
                        dispatch: None,
                        output: Vec::new(),
                        control: Control::Continue,
                    }
                } else {
                    let s = self.execute_command(&args);
                    ShellTurn {
                        add_history: Some(history_entry),
                        dispatch: Some(s),
                        output: Vec::new(),
                        control: Control::Continue,
                    }
                }
            },
            ReadEvent::EndOfInput => ShellTurn {
                add_history: None,
                dispatch: None,
                output: Vec::new(),
                control: Control::Stop,
            },
            ReadEvent::Failure(msg) => {
                let mut text = "Unexpected error: ".to_owned();
                text.append(msg.as_str());
                let ghost tv = text@;
                let out = vec![self.colors.failure(text), plain("\n")];
                proof {
                    assert(spans_model(out@) =~~= seq![
                        (Some(self.colors.failure@), tv),
                        (None::<Seq<char>>, "\n"@),
                    ]);
                }
                ShellTurn {
                    add_history: None,
                    dispatch: None,
                    output: out,
                    control: Control::Stop,
                }
            },
        }
    }
}

} // verus!
