use waylandcraft::launch::{
    bash_command, build_universal_env_list, detect_app_type, env_dump_script, launch_command, runner_of_lowercase,
    shell_quote, shell_quote_given,
};

fn strings(v: &[&str]) -> Vec<String> {
    v.iter().map(|s| s.to_string()).collect()
}

fn pair(k: &str, v: &str) -> (String, String) {
    (k.to_string(), v.to_string())
}

#[test]
fn universal_env_prefers_wayland_with_x11_fallback() {
    let env = build_universal_env_list("wayland-5", ":2", None);
    assert_eq!(
        env,
        vec![
            pair("WAYLAND_DISPLAY", "wayland-5"),
            pair("DISPLAY", ":2"),
            pair("XDG_SESSION_TYPE", "wayland"),
            pair("GDK_BACKEND", "wayland,x11"),
            pair("QT_QPA_PLATFORM", "wayland;xcb"),
            pair("MOZ_ENABLE_WAYLAND", "1"),
            pair("OZONE_PLATFORM_HINT", "auto"),
            pair("ELECTRON_OZONE_PLATFORM_HINT", "auto"),
        ]
    );
}

#[test]
fn universal_env_passes_the_host_session_bus() {
    let env = build_universal_env_list("w", ":1", Some("unix:path=/run/user/1000/bus"));
    assert_eq!(env.len(), 9);
    assert_eq!(env[8], pair("DBUS_SESSION_BUS_ADDRESS", "unix:path=/run/user/1000/bus"));
}

#[test]
fn bash_command_exports_quotes_and_execs() {
    let env = vec![pair("A", "x y"), pair("B", "plain")];
    let script = bash_command("/usr/bin/app", &strings(&["--flag", "it's"]), &env, "/run/user/1000");
    assert_eq!(
        script,
        "export A='x y'; export B=plain; export XDG_RUNTIME_DIR=/run/user/1000; \
         env > /tmp/wlc-env-dump.log; exec /usr/bin/app --flag 'it'\\''s'"
    );
}

#[test]
fn bash_command_without_arguments_keeps_the_trailing_space() {
    let script = bash_command("app", &Vec::new(), &Vec::new(), "");
    assert_eq!(script, "export XDG_RUNTIME_DIR=''; env > /tmp/wlc-env-dump.log; exec app ");
}

#[test]
fn launch_of_a_plain_program_goes_through_bash() {
    let (cmd, args) = launch_command("firefox", &strings(&["-new-window"]), "wayland-3", ":4", "/run/x", None);
    assert_eq!(cmd, "/bin/bash");
    assert_eq!(args.len(), 2);
    assert_eq!(args[0], "-c");
    assert!(args[1].starts_with("export WAYLAND_DISPLAY=wayland-3; export DISPLAY=':4'; "));
    assert!(args[1].ends_with("exec firefox -new-window"));
}

#[test]
fn launch_of_flatpak_keeps_the_runner_and_injects_options() {
    let (cmd, args) = launch_command(
        "/usr/bin/flatpak",
        &strings(&["run", "--branch=stable", "com.qq.QQ", "--x"]),
        "wayland-3",
        ":4",
        "/run/x",
        Some("bus"),
    );
    assert_eq!(cmd, "/usr/bin/flatpak");
    assert_eq!(
        args,
        strings(&[
            "run",
            "--branch=stable",
            "--socket=wayland",
            "--env=WAYLAND_DISPLAY=wayland-3",
            "--socket=x11",
            "--socket=pulseaudio",
            "--filesystem=/tmp/.X11-unix/X4",
            "--env=DISPLAY=:4",
            "com.qq.QQ",
            "--x",
        ])
    );
}

#[test]
fn env_dump_script_names_the_dump_file_by_pid() {
    let script = env_dump_script("my app", &strings(&["a"]), 42);
    let expected = "#!/bin/bash\n\
echo '=== ENV DUMP for my app' > /tmp/wlc-env-42.log\n\
echo 'WAYLAND_DISPLAY='$WAYLAND_DISPLAY >> /tmp/wlc-env-42.log\n\
echo 'DISPLAY='$DISPLAY >> /tmp/wlc-env-42.log\n\
echo 'GDK_BACKEND='$GDK_BACKEND >> /tmp/wlc-env-42.log\n\
echo 'QT_QPA_PLATFORM='$QT_QPA_PLATFORM >> /tmp/wlc-env-42.log\n\
echo 'OZONE_PLATFORM='$OZONE_PLATFORM >> /tmp/wlc-env-42.log\n\
echo 'ELECTRON_OZONE_PLATFORM_HINT='$ELECTRON_OZONE_PLATFORM_HINT >> /tmp/wlc-env-42.log\n\
echo 'XDG_RUNTIME_DIR='$XDG_RUNTIME_DIR >> /tmp/wlc-env-42.log\n\
env | sort >> /tmp/wlc-env-42.log\n\
echo '=== END ENV DUMP' >> /tmp/wlc-env-42.log\n\
exec 'my app' a\n";
    assert_eq!(script, expected);
}

#[test]
fn runner_is_judged_on_the_lowercase_command() {
    assert_eq!(runner_of_lowercase("/usr/bin/flatpak"), "flatpak");
    assert_eq!(runner_of_lowercase("/snap/bin/firefox"), "snap");
    assert_eq!(runner_of_lowercase("/USR/BIN/FLATPAK"), "app", "only lowercase text is recognised here");
    assert_eq!(detect_app_type("/USR/BIN/FLATPAK"), "flatpak");
    assert_eq!(detect_app_type("SNAP"), "snap");
    assert_eq!(detect_app_type("/usr/bin/gedit"), "app");
}

#[test]
fn quoting_follows_the_given_alphanumeric_flags() {
    assert_eq!(shell_quote_given("ab", &vec![true, true]), "ab");
    assert_eq!(shell_quote_given("ab", &vec![true, false]), "'ab'");
    assert_eq!(shell_quote_given("", &vec![]), "''");
    assert_eq!(shell_quote_given("it's", &vec![true, true, false, true]), "'it'\\''s'");
    assert_eq!(shell_quote("é-1"), "é-1", "a non-ASCII letter is alphanumeric");
    assert_eq!(shell_quote("a b"), "'a b'");
}

/// Reads one shell word made of ordinary characters, single-quoted strings
/// and backslash escapes.
fn read_word(q: &str) -> Option<String> {
    let cs: Vec<char> = q.chars().collect();
    let mut out = String::new();
    let mut i = 0;
    while i < cs.len() {
        match cs[i] {
            '\'' => {
                let end = cs[i + 1..].iter().position(|&c| c == '\'')? + i + 1;
                out.extend(&cs[i + 1..end]);
                i = end + 1;
            }
            '\\' => {
                out.push(*cs.get(i + 1)?);
                i += 2;
            }
            c if " \t\n\"|&;<>()$`*?[#~{}!".contains(c) => return None,
            c => {
                out.push(c);
                i += 1;
            }
        }
    }
    Some(out)
}

#[test]
fn quoted_words_read_back() {
    for w in ["", "plain-1.2/x=y", "a b", "it's", "''", "a'b'c", "$HOME; rm -rf ~", "中文 名", "\\n"] {
        assert_eq!(read_word(&shell_quote(w)).as_deref(), Some(w), "{w:?}");
    }
}
