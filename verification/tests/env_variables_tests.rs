use lemurs::env_variables::{get_dotfiles_dir, init_environment, set_xdg_env, u32_to_dec};

fn lookup(vars: &[(String, String)], key: &str) -> String {
    vars.iter()
        .find(|(k, _)| k == key)
        .unwrap_or_else(|| panic!("variable {} not set", key))
        .1
        .clone()
}

#[test]
fn u32_to_dec_renders_decimal() {
    assert_eq!(u32_to_dec(0), "0");
    assert_eq!(u32_to_dec(7), "7");
    assert_eq!(u32_to_dec(10), "10");
    assert_eq!(u32_to_dec(255), "255");
    assert_eq!(u32_to_dec(1000), "1000");
    assert_eq!(u32_to_dec(4294967295), "4294967295");
}

#[test]
fn dotfiles_dir_is_under_home() {
    assert_eq!(get_dotfiles_dir("/home/alice"), "/home/alice/.files");
}

#[test]
fn init_environment_sets_the_base_variables() {
    let vars = init_environment("alice", "/home/alice", "/bin/bash");
    assert_eq!(vars.len(), 11);
    assert_eq!(vars[0], ("HOME".to_string(), "/home/alice".to_string()));
    assert_eq!(lookup(&vars, "USER"), "alice");
    assert_eq!(lookup(&vars, "LOGNAME"), "alice");
    assert_eq!(
        lookup(&vars, "PATH"),
        "/home/alice/bin:/home/alice/bin/firefox:/home/alice/.cargo/bin:/home/linuxbrew/.linuxbrew/bin:/home/linuxbrew/.linuxbrew/sbin:/usr/local/sbin:/usr/local/bin:/usr/bin"
    );
    assert_eq!(lookup(&vars, "EDITOR"), "hx");
    assert_eq!(lookup(&vars, "SHELL"), "/home/alice/.cargo/bin/nu");
    assert_eq!(lookup(&vars, "DOTFILES_DIR"), "/home/alice/.files");
    assert_eq!(lookup(&vars, "USER_BIN"), "/home/alice/bin");
    assert_eq!(lookup(&vars, "PIPENV_VENV_IN_PROJECT"), "1");
    assert_eq!(lookup(&vars, "PYTHONBREAKPOINT"), "ipdb.set_trace");
    assert_eq!(lookup(&vars, "STARSHIP_CONFIG"), "/home/alice/.files/starship.toml");
}

#[test]
fn xdg_env_follows_the_basedir_convention() {
    let vars = set_xdg_env(1000, "/home/alice", 2);
    assert_eq!(vars.len(), 14);
    assert_eq!(lookup(&vars, "XDG_CONFIG_DIR"), "/home/alice/.files/.config");
    assert_eq!(lookup(&vars, "XDG_CONFIG_HOME"), "/home/alice/.files/.config");
    assert_eq!(lookup(&vars, "XDG_CACHE_HOME"), "/home/alice/.cache");
    assert_eq!(lookup(&vars, "XDG_DATA_HOME"), "/home/alice/.local/share");
    assert_eq!(lookup(&vars, "XDG_STATE_HOME"), "/home/alice/.local/state");
    assert_eq!(
        lookup(&vars, "XDG_DATA_DIRS"),
        "/home/linuxbrew/.linuxbrew/share:/usr/local/share:/usr/share"
    );
    assert_eq!(lookup(&vars, "XDG_CONFIG_DIRS"), "/etc/xdg");
    assert_eq!(lookup(&vars, "ZELLIJ_CONFIG_DIR"), "/home/alice/.files/.config/zellij");
    assert_eq!(lookup(&vars, "INPUTRC"), "/home/alice/.files/.config/readline/inputrc");
    assert_eq!(lookup(&vars, "XDG_RUNTIME_DIR"), "/run/user/1000");
    assert_eq!(lookup(&vars, "XDG_SESSION_DIR"), "user");
    assert_eq!(lookup(&vars, "XDG_SESSION_ID"), "1");
    assert_eq!(lookup(&vars, "XDG_SEAT"), "seat0");
    assert_eq!(lookup(&vars, "XDG_VTNR"), "2");
}
