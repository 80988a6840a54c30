//! The command-line surface: the configuration structure and its
//! argument grammar.
//!
//! Two modes exist: `single` checks one domain interactively, `batch`
//! streams a domain file. The global options `-c`/`--concurrent-requests`
//! and `-t`/`--timeout-ms` come before the mode word. The whole grammar
//! is a spec function, and `Cli::try_parse_from` is proved to follow it
//! exactly.

use vstd::prelude::*;

use crate::text::{parse_u64, parse_usize, spec_parse_u64, spec_parse_usize, str_eq};

verus! {

/// The chosen operation mode and its arguments.
pub enum Commands {
    /// Check one domain.
    Single { domain: String },
    /// Stream domains from a file, with optional output file, chunking
    /// and a per-minute rate limit.
    Batch { input_file: String, output_file: Option<String>, chunk_size: usize, rate_limit: u64 },
}

/// The full configuration one invocation carries.
pub struct Cli {
    /// What to do.
    pub command: Commands,
    /// How many domain checks may run at once.
    pub concurrent_requests: usize,
    /// Timeout of each network request, in milliseconds.
    pub timeout_ms: u64,
}

/// The mathematical image of `Commands`.
pub enum CommandsView {
    Single { domain: Seq<char> },
    Batch {
        input_file: Seq<char>,
        output_file: Option<Seq<char>>,
        chunk_size: usize,
        rate_limit: u64,
    },
}

/// The mathematical image of `Cli`.
pub struct CliView {
    pub command: CommandsView,
    pub concurrent_requests: usize,
    pub timeout_ms: u64,
}

impl View for Commands {
    type V = CommandsView;

    open spec fn view(&self) -> CommandsView {
        match self {
            Commands::Single { domain } => CommandsView::Single { domain: domain@ },
            Commands::Batch { input_file, output_file, chunk_size, rate_limit } => (
            CommandsView::Batch {
                input_file: input_file@,
                output_file: output_file.deep_view(),
                chunk_size: *chunk_size,
                rate_limit: *rate_limit,
            }),
        }
    }
}

impl View for Cli {
    type V = CliView;

    open spec fn view(&self) -> CliView {
        CliView {
            command: self.command@,
            concurrent_requests: self.concurrent_requests,
            timeout_ms: self.timeout_ms,
        }
    }
}

/// The arguments of `single` from position `i` on: `-d`/`--domain` with a
/// value, in any repetition (the last wins); the domain must be given.
pub open spec fn spec_parse_single(
    args: Seq<Seq<char>>,
    i: int,
    domain: Option<Seq<char>>,
) -> Option<Seq<char>>
    decreases args.len() - i,
{
    if i >= args.len() {
        domain
    } else if args[i] == "-d"@ || args[i] == "--domain"@ {
        if i + 1 < args.len() {
            spec_parse_single(args, i + 2, Some(args[i + 1]))
        } else {
            None
        }
    } else {
        None
    }
}

/// The arguments of `batch` from position `i` on: input and output files,
/// chunk size and rate limit, each introduced by its flag; the input file
/// must be given.
pub open spec fn spec_parse_batch(
    args: Seq<Seq<char>>,
    i: int,
    input_file: Option<Seq<char>>,
    output_file: Option<Seq<char>>,
    chunk_size: usize,
    rate_limit: u64,
) -> Option<CommandsView>
    decreases args.len() - i,
{
    if i >= args.len() {
        match input_file {
            Some(input) => Some(
                CommandsView::Batch { input_file: input, output_file, chunk_size, rate_limit },
            ),
            None => None,
        }
    } else if args[i] == "-i"@ || args[i] == "--input-file"@ {
        if i + 1 < args.len() {
            spec_parse_batch(args, i + 2, Some(args[i + 1]), output_file, chunk_size, rate_limit)
        } else {
            None
        }
    } else if args[i] == "-o"@ || args[i] == "--output-file"@ {
        if i + 1 < args.len() {
            spec_parse_batch(args, i + 2, input_file, Some(args[i + 1]), chunk_size, rate_limit)
        } else {
            None
        }
    } else if args[i] == "--chunk-size"@ {
        if i + 1 < args.len() {
            match spec_parse_usize(args[i + 1]) {
                Some(v) => spec_parse_batch(args, i + 2, input_file, output_file, v, rate_limit),
                None => None,
            }
        } else {
            None
        }
    } else if args[i] == "-r"@ || args[i] == "--rate-limit"@ {
        if i + 1 < args.len() {
            match spec_parse_u64(args[i + 1]) {
                Some(v) => spec_parse_batch(args, i + 2, input_file, output_file, chunk_size, v),
                None => None,
            }
        } else {
            None
        }
    } else {
        None
    }
}

/// The global options and the mode word from position `i` on, carrying
/// the values seen so far.
pub open spec fn spec_parse_globals(
    args: Seq<Seq<char>>,
    i: int,
    concurrent_requests: usize,
    timeout_ms: u64,
) -> Option<CliView>
    decreases args.len() - i,
{
    if i >= args.len() {
        None
    } else if args[i] == "-c"@ || args[i] == "--concurrent-requests"@ {
        if i + 1 < args.len() {
            match spec_parse_usize(args[i + 1]) {
                Some(v) => spec_parse_globals(args, i + 2, v, timeout_ms),
                None => None,
            }
        } else {
            None
        }
    } else if args[i] == "-t"@ || args[i] == "--timeout-ms"@ {
        if i + 1 < args.len() {
            match spec_parse_u64(args[i + 1]) {
                Some(v) => spec_parse_globals(args, i + 2, concurrent_requests, v),
                None => None,
            }
        } else {
            None
        }
    } else if args[i] == "single"@ {
        match spec_parse_single(args, i + 1, None) {
            Some(domain) => Some(
                CliView {
                    command: CommandsView::Single { domain },
                    concurrent_requests,
                    timeout_ms,
                },
            ),
            None => None,
        }
    } else if args[i] == "batch"@ {
        match spec_parse_batch(args, i + 1, None, None, 1000, 50) {
            Some(command) => Some(CliView { command, concurrent_requests, timeout_ms }),
            None => None,
        }
    } else {
        None
    }
}

/// The whole grammar: the leading program name is skipped, the defaults
/// are 100 concurrent requests and a 5000 ms timeout.
pub open spec fn spec_parse_cli(args: Seq<Seq<char>>) -> Option<CliView> {
    if args.len() < 1 {
        None
    } else {
        spec_parse_globals(args, 1, 100, 5000)
    }
}

fn parse_single_args(args: &Vec<String>, start: usize) -> (r: Result<String, String>)
    requires
        start >= 1,
    ensures
        (match r {
            Ok(domain) => spec_parse_single(args.deep_view(), start as int, None) == Some(
                domain@,
            ),
            Err(_) => spec_parse_single(args.deep_view(), start as int, None) is None,
        }),
{
    let ghost dv = args.deep_view();
    let mut domain: Option<String> = None;
    let mut i = start;
    loop
        invariant
            start <= i,
            dv == args.deep_view(),
            spec_parse_single(dv, start as int, None) == spec_parse_single(
                dv,
                i as int,
                domain.deep_view(),
            ),
        decreases args@.len() + 2 - i,
    {
        if i >= args.len() {
            return (match domain {
                Some(d) => Ok(d),
                None => Err(String::from_str("a domain must be given")),
            });
        }
        proof {
            assert(dv[i as int] == args@[i as int]@);
        }
        if str_eq(args[i].as_str(), "-d") || str_eq(args[i].as_str(), "--domain") {
            if i + 1 < args.len() {
                proof {
                    assert(dv[i + 1] == args@[i + 1]@);
                }
                domain = Some(args[i + 1].clone());
                i = i + 2;
            } else {
                return Err(String::from_str("the domain flag needs a value"));
            }
        } else {
            return Err(String::from_str("unexpected argument"));
        }
    }
}

fn parse_batch_args(args: &Vec<String>, start: usize) -> (r: Result<Commands, String>)
    requires
        start >= 1,
    ensures
        (match r {
            Ok(command) => spec_parse_batch(args.deep_view(), start as int, None, None, 1000, 50)
                == Some(command@),
            Err(_) => spec_parse_batch(args.deep_view(), start as int, None, None, 1000, 50)
                is None,
        }),
{
    let ghost dv = args.deep_view();
    let mut input_file: Option<String> = None;
    let mut output_file: Option<String> = None;
    let mut chunk_size: usize = 1000;
    let mut rate_limit: u64 = 50;
    let mut i = start;
    loop
        invariant
            start <= i,
            dv == args.deep_view(),
            spec_parse_batch(dv, start as int, None, None, 1000, 50) == spec_parse_batch(
                dv,
                i as int,
                input_file.deep_view(),
                output_file.deep_view(),
                chunk_size,
                rate_limit,
            ),
        decreases args@.len() + 2 - i,
    {
        if i >= args.len() {
            match input_file {
                Some(input) => {
                    let command = Commands::Batch {
                        input_file: input,
                        output_file,
                        chunk_size,
                        rate_limit,
                    };
                    return Ok(command);
                },
                None => {
                    return Err(String::from_str("an input file must be given"));
                },
            }
        }
        proof {
            assert(dv[i as int] == args@[i as int]@);
        }
        let a = args[i].as_str();
        if str_eq(a, "-i") || str_eq(a, "--input-file") {
            if i + 1 < args.len() {
                proof {
                    assert(dv[i + 1] == args@[i + 1]@);
                }
                input_file = Some(args[i + 1].clone());
                i = i + 2;
            } else {
                return Err(String::from_str("the input file flag needs a value"));
            }
        } else if str_eq(a, "-o") || str_eq(a, "--output-file") {
            if i + 1 < args.len() {
                proof {
                    assert(dv[i + 1] == args@[i + 1]@);
                }
                output_file = Some(args[i + 1].clone());
                i = i + 2;
            } else {
                return Err(String::from_str("the output file flag needs a value"));
            }
        } else if str_eq(a, "--chunk-size") {
            if i + 1 < args.len() {
                proof {
                    assert(dv[i + 1] == args@[i + 1]@);
                }
                match parse_usize(args[i + 1].as_str()) {
                    Some(v) => {
                        chunk_size = v;
                        i = i + 2;
                    },
                    None => {
                        return Err(String::from_str("the chunk size must be a number"));
                    },
                }
            } else {
                return Err(String::from_str("the chunk size flag needs a value"));
            }
        } else if str_eq(a, "-r") || str_eq(a, "--rate-limit") {
            if i + 1 < args.len() {
                proof {
                    assert(dv[i + 1] == args@[i + 1]@);
                }
                match parse_u64(args[i + 1].as_str()) {
                    Some(v) => {
                        rate_limit = v;
                        i = i + 2;
                    },
                    None => {
                        return Err(String::from_str("the rate limit must be a number"));
                    },
                }
            } else {
                return Err(String::from_str("the rate limit flag needs a value"));
            }
        } else {
            return Err(String::from_str("unexpected argument"));
        }
    }
}

impl Cli {
    /// Parses a full argument list, program name first: exactly the
    /// grammar `spec_parse_cli`, with an error for every argument list
    /// the grammar rejects.
    pub fn try_parse_from(args: Vec<String>) -> (r: Result<Cli, String>)
        ensures
            (match r {
                Ok(cli) => spec_parse_cli(args.deep_view()) == Some(cli@),
                Err(_) => spec_parse_cli(args.deep_view()) is None,
            }),
    {
        let ghost dv = args.deep_view();
        if args.len() < 1 {
            return Err(String::from_str("the program name is missing"));
        }
        let mut concurrent_requests: usize = 100;
        let mut timeout_ms: u64 = 5000;
        let mut i: usize = 1;
        loop
            invariant
                1 <= i,
                dv == args.deep_view(),
                dv.len() >= 1,
                spec_parse_cli(dv) == spec_parse_globals(
                    dv,
                    i as int,
                    concurrent_requests,
                    timeout_ms,
                ),
            decreases args@.len() + 2 - i,
        {
            if i >= args.len() {
                return Err(String::from_str("a mode (single or batch) must be given"));
            }
            proof {
                assert(dv[i as int] == args@[i as int]@);
            }
            let a = args[i].as_str();
            if str_eq(a, "-c") || str_eq(a, "--concurrent-requests") {
                if i + 1 < args.len() {
                    proof {
                        assert(dv[i + 1] == args@[i + 1]@);
                    }
                    match parse_usize(args[i + 1].as_str()) {
                        Some(v) => {
                            concurrent_requests = v;
                            i = i + 2;
                        },
                        None => {
                            return Err(
                                String::from_str("the concurrent requests must be a number"),
                            );
                        },
                    }
                } else {
                    return Err(String::from_str("the concurrent requests flag needs a value"));
                }
            } else if str_eq(a, "-t") || str_eq(a, "--timeout-ms") {
                if i + 1 < args.len() {
                    proof {
                        assert(dv[i + 1] == args@[i + 1]@);
                    }
                    match parse_u64(args[i + 1].as_str()) {
                        Some(v) => {
                            timeout_ms = v;
                            i = i + 2;
                        },
                        None => {
                            return Err(String::from_str("the timeout must be a number"));
                        },
                    }
                } else {
                    return Err(String::from_str("the timeout flag needs a value"));
                }
            } else if str_eq(a, "single") {
                match parse_single_args(&args, i + 1) {
                    Ok(domain) => {
                        let cli = Cli {
                            command: Commands::Single { domain },
                            concurrent_requests,
                            timeout_ms,
                        };
                        return Ok(cli);
                    },
                    Err(message) => {
                        return Err(message);
                    },
                }
            } else if str_eq(a, "batch") {
                match parse_batch_args(&args, i + 1) {
                    Ok(command) => {
                        let cli = Cli { command, concurrent_requests, timeout_ms };
                        return Ok(cli);
                    },
                    Err(message) => {
                        return Err(message);
                    },
                }
            } else {
                return Err(String::from_str("unexpected argument"));
            }
        }
    }
}

} // verus!
