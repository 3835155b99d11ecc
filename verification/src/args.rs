//! Recognizing the command-line options and assembling the URL batch.
//!
//! Recognized options: `--file <path>`, `--workers <n>` (positive),
//! `--timeout <seconds>`, `--retries <n>`; every other `--`-argument is a
//! usage error, and every remaining argument is a positional URL. A flag
//! without its value, an unparseable number, and an empty URL batch are
//! usage errors too.

use vstd::prelude::*;
use vstd::string::StrSliceExecFns;
use crate::backlog::string_models;
use crate::numbers::{dec_val, is_dec, parse_u64};

verus! {

/// A configuration or usage fault; the process reports usage and exits
/// without performing any checks.
#[derive(Debug)]
pub struct UsageError;

/// Mathematical model of a [`Config`].
#[verifier::ext_equal]
pub struct ConfigModel {
    pub urls: Seq<Seq<char>>,
    pub file_path: Option<Seq<char>>,
    pub workers: u64,
    pub timeout_secs: u64,
    pub retries: u64,
}

/// The run configuration assembled from the command line: positional
/// URLs, an optional URL list file, and the pool, timeout and retry
/// settings.
pub struct Config {
    pub positional_urls: Vec<String>,
    pub file_path: Option<String>,
    pub workers: u64,
    pub timeout_secs: u64,
    pub retries: u64,
}

impl View for Config {
    type V = ConfigModel;

    open spec fn view(&self) -> ConfigModel {
        ConfigModel {
            urls: string_models(self.positional_urls@),
            file_path: match self.file_path {
                Some(p) => Some(p@),
                None => None,
            },
            workers: self.workers,
            timeout_secs: self.timeout_secs,
            retries: self.retries,
        }
    }
}

/// The numeral's value, when it is a decimal numeral whose value fits.
pub open spec fn dec_opt(s: Seq<char>) -> Option<u64> {
    if is_dec(s) && dec_val(s) <= u64::MAX {
        Some(dec_val(s) as u64)
    } else {
        None
    }
}

/// Whether the argument is option-shaped: it begins with `--`.
pub open spec fn looks_like_flag(s: Seq<char>) -> bool {
    s.len() >= 2 && s[0] == '-' && s[1] == '-'
}

/// What the option walk makes of the argument list, given the settings
/// accumulated so far: `None` is a usage error. A repeated option keeps
/// its last value; `--workers` accepts positive numerals only.
pub open spec fn parse_model(args: Seq<Seq<char>>, acc: ConfigModel) -> Option<ConfigModel>
    decreases args.len(),
{
    if args.len() == 0 {
        Some(acc)
    } else if args[0] == "--file"@ {
        if args.len() < 2 {
            None
        } else {
            parse_model(args.skip(2), ConfigModel { file_path: Some(args[1]), ..acc })
        }
    } else if args[0] == "--workers"@ {
        if args.len() < 2 {
            None
        } else {
            match dec_opt(args[1]) {
                Some(v) => if v >= 1 {
                    parse_model(args.skip(2), ConfigModel { workers: v, ..acc })
                } else {
                    None
                },
                None => None,
            }
        }
    } else if args[0] == "--timeout"@ {
        if args.len() < 2 {
            None
        } else {
            match dec_opt(args[1]) {
                Some(v) => parse_model(args.skip(2), ConfigModel { timeout_secs: v, ..acc }),
                None => None,
            }
        }
    } else if args[0] == "--retries"@ {
        if args.len() < 2 {
            None
        } else {
            match dec_opt(args[1]) {
                Some(v) => parse_model(args.skip(2), ConfigModel { retries: v, ..acc }),
                None => None,
            }
        }
    } else if looks_like_flag(args[0]) {
        None
    } else {
        parse_model(args.skip(1), ConfigModel { urls: acc.urls.push(args[0]), ..acc })
    }
}

/// The settings before any argument is read: no URLs, no file, the given
/// worker default, a five-second timeout, no retries.
pub open spec fn initial_model(default_workers: u64) -> ConfigModel {
    ConfigModel {
        urls: Seq::empty(),
        file_path: None,
        workers: default_workers,
        timeout_secs: 5,
        retries: 0,
    }
}

/// Whether the argument begins with `--`.
fn arg_looks_like_flag(s: &str) -> (b: bool)
    ensures
        b == looks_like_flag(s@),
{
    s.unicode_len() >= 2 && s.get_char(0) == '-' && s.get_char(1) == '-'
}

/// Walks the arguments (the program name already removed) and builds the
/// configuration, or reports the usage error that the walk ran into.
pub fn parse_args(args: &Vec<String>, default_workers: u64) -> (r: Result<Config, UsageError>)
    ensures
        match r {
            Ok(c) => parse_model(string_models(args@), initial_model(default_workers)) == Some(
                c@,
            ),
            Err(_) => parse_model(string_models(args@), initial_model(default_workers)) is None,
        },
{
    let ghost m = string_models(args@);
    let flag_file = String::from_str("--file");
    let flag_workers = String::from_str("--workers");
    let flag_timeout = String::from_str("--timeout");
    let flag_retries = String::from_str("--retries");
    let mut cfg = Config {
        positional_urls: Vec::new(),
        file_path: None,
        workers: default_workers,
        timeout_secs: 5,
        retries: 0,
    };
    let mut i: usize = 0;
    proof {
        assert(m.skip(0) =~= m);
        assert(cfg@ =~= initial_model(default_workers));
    }
    while i < args.len()
        invariant
            0 <= i <= args.len(),
            m == string_models(args@),
            parse_model(m.skip(i as int), cfg@) == parse_model(m, initial_model(default_workers)),
            flag_file@ == "--file"@,
            flag_workers@ == "--workers"@,
            flag_timeout@ == "--timeout"@,
            flag_retries@ == "--retries"@,
        decreases args.len() - i,
    {
        let ghost rest = m.skip(i as int);
        let ghost pre = cfg@;
        proof {
            reveal_strlit("--file");
            reveal_strlit("--workers");
            reveal_strlit("--timeout");
            reveal_strlit("--retries");
            assert(rest[0] == m[i as int]);
            assert(rest.skip(1) =~= m.skip(i + 1));
            if i + 2 <= m.len() {
                assert(rest.skip(2) =~= m.skip(i + 2));
            }
            if i + 1 < m.len() {
                assert(rest[1] == m[i + 1]);
            }
        }
        let arg = &args[i];
        if *arg == flag_file {
            if i + 1 >= args.len() {
                return Err(UsageError);
            }
            cfg.file_path = Some(args[i + 1].clone());
            proof {
                assert(cfg@ =~= (ConfigModel { file_path: Some(rest[1]), ..pre }));
            }
            i = i + 2;
        } else if *arg == flag_workers {
            if i + 1 >= args.len() {
                return Err(UsageError);
            }
            match parse_u64(args[i + 1].as_str()) {
                Some(v) => {
                    if v >= 1 {
                        cfg.workers = v;
                        proof {
                            assert(cfg@ =~= (ConfigModel { workers: v, ..pre }));
                        }
                        i = i + 2;
                    } else {
                        return Err(UsageError);
                    }
                },
                None => {
                    return Err(UsageError);
                },
            }
        } else if *arg == flag_timeout {
            if i + 1 >= args.len() {
                return Err(UsageError);
            }
            match parse_u64(args[i + 1].as_str()) {
                Some(v) => {
                    cfg.timeout_secs = v;
                    proof {
                        assert(cfg@ =~= (ConfigModel { timeout_secs: v, ..pre }));
                    }
                    i = i + 2;
                },
                None => {
                    return Err(UsageError);
                },
            }
        } else if *arg == flag_retries {
            if i + 1 >= args.len() {
                return Err(UsageError);
            }
            match parse_u64(args[i + 1].as_str()) {
                Some(v) => {
                    cfg.retries = v;
                    proof {
                        assert(cfg@ =~= (ConfigModel { retries: v, ..pre }));
                    }
                    i = i + 2;
                },
                None => {
                    return Err(UsageError);
                },
            }
        } else if arg_looks_like_flag(arg.as_str()) {
            return Err(UsageError);
        } else {
            cfg.positional_urls.push(arg.clone());
            proof {
                assert(cfg@ =~= (ConfigModel { urls: pre.urls.push(rest[0]), ..pre }));
            }
            i = i + 1;
        }
    }
    proof {
        assert(m.skip(args@.len() as int) =~= Seq::<Seq<char>>::empty());
    }
    Ok(cfg)
}

/// Joins the positional URLs and the loaded file URLs, positional first.
/// An empty total batch is a usage error, and no probing happens at all.
pub fn assemble_batch(positional: Vec<String>, file_urls: Option<Vec<String>>) -> (r: Result<
    Vec<String>,
    UsageError,
>)
    ensures
        ({
            let total = string_models(positional@) + (match file_urls {
                Some(f) => string_models(f@),
                None => Seq::<Seq<char>>::empty(),
            });
            match r {
                Ok(urls) => string_models(urls@) == total && total.len() > 0,
                Err(_) => total.len() == 0,
            }
        }),
{
    let ghost total = string_models(positional@) + (match &file_urls {
        Some(f) => string_models(f@),
        None => Seq::<Seq<char>>::empty(),
    });
    let mut urls = positional;
    match file_urls {
        Some(mut f) => {
            urls.append(&mut f);
        },
        None => {},
    }
    proof {
        assert(string_models(urls@) =~= total);
    }
    if urls.len() == 0 {
        Err(UsageError)
    } else {
        Ok(urls)
    }
}

} // verus!
