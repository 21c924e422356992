//! The process-wide variable set a session starts with, built as an explicit
//! value: a list of (name, value) pairs derived from the user's name, home
//! directory and uid. Applying the pairs to the real process environment (and
//! changing the working directory to the home, which is logged and not fatal
//! when it fails) is the caller's edge work; the contents are fixed here.

use vstd::prelude::*;
use vstd::string::StringExecFns;

verus! {

/// The characters '0' through '9', by digit value.
pub open spec fn spec_digit_char(d: nat) -> char {
    if d == 0 {
        '0'
    } else if d == 1 {
        '1'
    } else if d == 2 {
        '2'
    } else if d == 3 {
        '3'
    } else if d == 4 {
        '4'
    } else if d == 5 {
        '5'
    } else if d == 6 {
        '6'
    } else if d == 7 {
        '7'
    } else if d == 8 {
        '8'
    } else {
        '9'
    }
}

/// The decimal representation of a number, most significant digit first,
/// without leading zeros (a single '0' for zero).
pub open spec fn spec_dec(n: nat) -> Seq<char>
    decreases n,
{
    if n < 10 {
        seq![spec_digit_char(n)]
    } else {
        spec_dec(n / 10).push(spec_digit_char(n % 10))
    }
}

fn digit_str(d: u32) -> (r: &'static str)
    requires
        d < 10,
    ensures
        r@ == seq![spec_digit_char(d as nat)],
{
    match d {
        0 => {
            proof {
                reveal_strlit("0");
                assert("0"@ =~= seq![spec_digit_char(0)]);
            }
            "0"
        },
        1 => {
            proof {
                reveal_strlit("1");
                assert("1"@ =~= seq![spec_digit_char(1)]);
            }
            "1"
        },
        2 => {
            proof {
                reveal_strlit("2");
                assert("2"@ =~= seq![spec_digit_char(2)]);
            }
            "2"
        },
        3 => {
            proof {
                reveal_strlit("3");
                assert("3"@ =~= seq![spec_digit_char(3)]);
            }
            "3"
        },
        4 => {
            proof {
                reveal_strlit("4");
                assert("4"@ =~= seq![spec_digit_char(4)]);
            }
            "4"
        },
        5 => {
            proof {
                reveal_strlit("5");
                assert("5"@ =~= seq![spec_digit_char(5)]);
            }
            "5"
        },
        6 => {
            proof {
                reveal_strlit("6");
                assert("6"@ =~= seq![spec_digit_char(6)]);
            }
            "6"
        },
        7 => {
            proof {
                reveal_strlit("7");
                assert("7"@ =~= seq![spec_digit_char(7)]);
            }
            "7"
        },
        8 => {
            proof {
                reveal_strlit("8");
                assert("8"@ =~= seq![spec_digit_char(8)]);
            }
            "8"
        },
        _ => {
            proof {
                reveal_strlit("9");
                assert("9"@ =~= seq![spec_digit_char(9)]);
            }
            "9"
        },
    }
}

/// Render a number in decimal.
pub fn u32_to_dec(n: u32) -> (r: String)
    ensures
        r@ == spec_dec(n as nat),
    decreases n,
{
    if n < 10 {
        String::from_str(digit_str(n))
    } else {
        let mut s = u32_to_dec(n / 10);
        s.append(digit_str(n % 10));
        proof {
            assert(spec_dec((n / 10) as nat).push(spec_digit_char((n % 10) as nat)) =~= spec_dec(
                (n / 10) as nat,
            ) + seq![spec_digit_char((n % 10) as nat)]);
        }
        s
    }
}

/// The view of a variable list: each pair as its character sequences.
pub open spec fn env_pairs_view(v: Seq<(String, String)>) -> Seq<(Seq<char>, Seq<char>)> {
    v.map_values(|p: (String, String)| (p.0@, p.1@))
}

/// Where the user's dotfiles live, under the home directory.
pub open spec fn spec_dotfiles_dir(homedir: Seq<char>) -> Seq<char> {
    homedir + "/.files"@
}

pub fn get_dotfiles_dir(homedir: &str) -> (r: String)
    ensures
        r@ == spec_dotfiles_dir(homedir@),
{
    let mut r = homedir.to_owned();
    r.append("/.files");
    r
}

/// The base variable set: identity, search path, editor, shell, and the
/// product-specific entries, in the order they are applied.
pub open spec fn spec_init_env(username: Seq<char>, homedir: Seq<char>) -> Seq<
    (Seq<char>, Seq<char>),
> {
    seq![
        ("HOME"@, homedir),
        ("USER"@, username),
        ("LOGNAME"@, username),
        (
            "PATH"@,
            homedir + "/bin:"@ + homedir + "/bin/firefox:"@ + homedir
                + "/.cargo/bin:/home/linuxbrew/.linuxbrew/bin:/home/linuxbrew/.linuxbrew/sbin:/usr/local/sbin:/usr/local/bin:/usr/bin"@,
        ),
        ("EDITOR"@, "hx"@),
        ("SHELL"@, homedir + "/.cargo/bin/nu"@),
        ("DOTFILES_DIR"@, spec_dotfiles_dir(homedir)),
        ("USER_BIN"@, homedir + "/bin"@),
        ("PIPENV_VENV_IN_PROJECT"@, "1"@),
        ("PYTHONBREAKPOINT"@, "ipdb.set_trace"@),
        ("STARSHIP_CONFIG"@, spec_dotfiles_dir(homedir) + "/starship.toml"@),
    ]
}

/// Build the base variable set for a session. The login shell is part of the
/// session's identity but does not enter any of these values.
pub fn init_environment(username: &str, homedir: &str, _shell: &str) -> (r: Vec<(String, String)>)
    ensures
        env_pairs_view(r@) == spec_init_env(username@, homedir@),
{
    let mut r: Vec<(String, String)> = Vec::new();
    r.push((String::from_str("HOME"), homedir.to_owned()));
    r.push((String::from_str("USER"), username.to_owned()));
    r.push((String::from_str("LOGNAME"), username.to_owned()));

    let mut path = homedir.to_owned();
    path.append("/bin:");
    path.append(homedir);
    path.append("/bin/firefox:");
    path.append(homedir);
    path.append(
        "/.cargo/bin:/home/linuxbrew/.linuxbrew/bin:/home/linuxbrew/.linuxbrew/sbin:/usr/local/sbin:/usr/local/bin:/usr/bin",
    );
    r.push((String::from_str("PATH"), path));

    r.push((String::from_str("EDITOR"), String::from_str("hx")));

    let mut shell_value = homedir.to_owned();
    shell_value.append("/.cargo/bin/nu");
    r.push((String::from_str("SHELL"), shell_value));

    let dotfiles_dir = get_dotfiles_dir(homedir);
    r.push((String::from_str("DOTFILES_DIR"), dotfiles_dir.clone()));

    let mut user_bin = homedir.to_owned();
    user_bin.append("/bin");
    r.push((String::from_str("USER_BIN"), user_bin));

    r.push((String::from_str("PIPENV_VENV_IN_PROJECT"), String::from_str("1")));
    r.push((String::from_str("PYTHONBREAKPOINT"), String::from_str("ipdb.set_trace")));

    let mut starship = dotfiles_dir;
    starship.append("/starship.toml");
    r.push((String::from_str("STARSHIP_CONFIG"), starship));

    proof {
        assert(env_pairs_view(r@) =~= spec_init_env(username@, homedir@));
    }
    r
}

/// The XDG base-directory variable set, per the basedir convention, in the
/// order it is applied.
pub open spec fn spec_xdg_env(uid: nat, homedir: Seq<char>, tty: nat) -> Seq<
    (Seq<char>, Seq<char>),
> {
    let xdg_config = spec_dotfiles_dir(homedir) + "/.config"@;
    seq![
        ("XDG_CONFIG_DIR"@, xdg_config),
        ("XDG_CONFIG_HOME"@, xdg_config),
        ("XDG_CACHE_HOME"@, homedir + "/.cache"@),
        ("XDG_DATA_HOME"@, homedir + "/.local/share"@),
        ("XDG_STATE_HOME"@, homedir + "/.local/state"@),
        ("XDG_DATA_DIRS"@, "/home/linuxbrew/.linuxbrew/share:/usr/local/share:/usr/share"@),
        ("XDG_CONFIG_DIRS"@, "/etc/xdg"@),
        ("ZELLIJ_CONFIG_DIR"@, xdg_config + "/zellij"@),
        ("INPUTRC"@, xdg_config + "/readline/inputrc"@),
        ("XDG_RUNTIME_DIR"@, "/run/user/"@ + spec_dec(uid)),
        ("XDG_SESSION_DIR"@, "user"@),
        ("XDG_SESSION_ID"@, "1"@),
        ("XDG_SEAT"@, "seat0"@),
        ("XDG_VTNR"@, spec_dec(tty)),
    ]
}

/// Build the XDG variable set for a session on the given terminal.
pub fn set_xdg_env(uid: u32, homedir: &str, tty: u8) -> (r: Vec<(String, String)>)
    ensures
        env_pairs_view(r@) == spec_xdg_env(uid as nat, homedir@, tty as nat),
{
    let mut r: Vec<(String, String)> = Vec::new();

    let mut xdg_config = get_dotfiles_dir(homedir);
    xdg_config.append("/.config");

    r.push((String::from_str("XDG_CONFIG_DIR"), xdg_config.clone()));
    r.push((String::from_str("XDG_CONFIG_HOME"), xdg_config.clone()));

    let mut cache = homedir.to_owned();
    cache.append("/.cache");
    r.push((String::from_str("XDG_CACHE_HOME"), cache));

    let mut data = homedir.to_owned();
    data.append("/.local/share");
    r.push((String::from_str("XDG_DATA_HOME"), data));

    let mut state = homedir.to_owned();
    state.append("/.local/state");
    r.push((String::from_str("XDG_STATE_HOME"), state));

    r.push((
        String::from_str("XDG_DATA_DIRS"),
        String::from_str("/home/linuxbrew/.linuxbrew/share:/usr/local/share:/usr/share"),
    ));
    r.push((String::from_str("XDG_CONFIG_DIRS"), String::from_str("/etc/xdg")));

    let mut zellij = xdg_config.clone();
    zellij.append("/zellij");
    r.push((String::from_str("ZELLIJ_CONFIG_DIR"), zellij));

    let mut inputrc = xdg_config;
    inputrc.append("/readline/inputrc");
    r.push((String::from_str("INPUTRC"), inputrc));

    let mut runtime = String::from_str("/run/user/");
    let uid_dec = u32_to_dec(uid);
    runtime.append(uid_dec.as_str());
    r.push((String::from_str("XDG_RUNTIME_DIR"), runtime));

    r.push((String::from_str("XDG_SESSION_DIR"), String::from_str("user")));
    r.push((String::from_str("XDG_SESSION_ID"), String::from_str("1")));
    r.push((String::from_str("XDG_SEAT"), String::from_str("seat0")));

    r.push((String::from_str("XDG_VTNR"), u32_to_dec(tty as u32)));

    proof {
        assert(env_pairs_view(r@) =~= spec_xdg_env(uid as nat, homedir@, tty as nat));
    }
    r
}

} // verus!
