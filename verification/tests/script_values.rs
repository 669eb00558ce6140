use dv4lua::error::Error;
use dv4lua::multi::op::{ExecOptions, ScriptExecutor};
use dv4lua::multi::pm::Packages;
use dv4lua::multi::user::prepare;
use dv4lua::multi::SyncPath;
use dv4lua::dv::PmKind;
use dv4lua::value::{get_field, get_texts, ScriptValue};

fn to_script(value: &mlua::Value) -> ScriptValue {
    match value {
        mlua::Value::Nil => ScriptValue::Nil,
        mlua::Value::Boolean(b) => ScriptValue::Boolean(*b),
        mlua::Value::String(s) => match s.to_str() {
            Ok(text) => ScriptValue::Text(text.to_string()),
            Err(_) => ScriptValue::Other,
        },
        mlua::Value::Table(table) => {
            let mut named = Vec::new();
            let mut count = 0;
            for pair in table.pairs::<mlua::Value, mlua::Value>() {
                let (key, value) = pair.expect("Failed to read");
                count += 1;
                if let mlua::Value::String(name) = key {
                    named.push((name.to_string_lossy(), to_script(&value)));
                }
            }
            if named.is_empty() && count == table.raw_len() {
                let items = table
                    .sequence_values::<mlua::Value>()
                    .map(|item| to_script(&item.expect("Failed to read")))
                    .collect();
                ScriptValue::List(items)
            } else {
                ScriptValue::Table(named)
            }
        }
        _ => ScriptValue::Other,
    }
}

fn eval(s: &str) -> ScriptValue {
    let lua = mlua::Lua::new();
    let val = lua.load(s).eval::<mlua::Value>().expect("Failed to load");
    to_script(&val)
}

fn sync_path_des_suc_f(s: &str) -> Result<SyncPath, Error> {
    SyncPath::from_value(&eval(s))
}

fn exec_options_des_suc_f(s: &str) -> ExecOptions {
    ExecOptions::from_value(&eval(s)).expect("Failed to deserialize")
}

#[test]
fn multi_sync_path_serde() {
    let sp = sync_path_des_suc_f("\"/path/to/single\"").expect("Failed to deserialize");
    match sp {
        SyncPath::Single(s) => assert_eq!(s, "/path/to/single"),
        _ => panic!("Expected Single variant"),
    }
    let sp = sync_path_des_suc_f("{\"/path/one\", \"/path/two\"}").expect("Failed to deserialize");
    match sp {
        SyncPath::Multiple(v) => {
            assert_eq!(v.len(), 2);
            assert_eq!(v[0], "/path/one");
            assert_eq!(v[1], "/path/two");
        }
        _ => panic!("Expected Multiple variant"),
    }
}

#[test]
fn op_sync_path_serde() {
    let sp = sync_path_des_suc_f("\"/path/to/single\"").expect("Failed to deserialize");
    match sp {
        SyncPath::Single(s) => assert_eq!(s, "/path/to/single"),
        _ => panic!("Expected Single variant"),
    }
    let sp = sync_path_des_suc_f("{\"/path/one\", \"/path/two\"}").expect("Failed to deserialize");
    match sp {
        SyncPath::Multiple(v) => {
            assert_eq!(v.len(), 2);
            assert_eq!(v[0], "/path/one");
            assert_eq!(v[1], "/path/two");
        }
        _ => panic!("Expected Multiple variant"),
    }
}

#[test]
fn op_exec_options_serde() {
    let opt = exec_options_des_suc_f("true");
    assert!(opt.reply);
    assert!(opt.etor.is_none());

    let opt = exec_options_des_suc_f("{reply = false}");
    assert!(!opt.reply);
    assert!(opt.etor.is_none());

    let opt = exec_options_des_suc_f("{reply = true, etor = 'sh'}");
    assert!(opt.reply);
    assert_eq!(opt.etor, Some(ScriptExecutor::Sh));

    let opt = exec_options_des_suc_f("{reply = false, etor = 'bash'}");
    assert!(!opt.reply);
    assert_eq!(opt.etor, Some(ScriptExecutor::Bash));
}

#[test]
fn user_exec_options_serde() {
    let opt = exec_options_des_suc_f("true");
    assert!(opt.reply);
    assert!(opt.etor.is_none());

    let opt = exec_options_des_suc_f("{reply = false}");
    assert!(!opt.reply);
    assert!(opt.etor.is_none());

    let opt = exec_options_des_suc_f("{reply = true, etor = 'sh'}");
    assert!(opt.reply);
    assert_eq!(opt.etor, Some(ScriptExecutor::Sh));

    let opt = exec_options_des_suc_f("{reply = false, etor = 'bash'}");
    assert!(!opt.reply);
    assert_eq!(opt.etor, Some(ScriptExecutor::Bash));
}

fn text(s: &str) -> ScriptValue {
    ScriptValue::Text(s.to_string())
}

fn conversion(to: &str, message: &str) -> Error {
    Error::ConversionError {
        from: "value".to_string(),
        to: to.to_string(),
        message: Some(message.to_string()),
    }
}

#[test]
fn sync_path_refuses_what_is_no_path() {
    let expected = conversion("SyncPath", "expected a path or a list of paths");
    assert_eq!(SyncPath::from_value(&ScriptValue::Nil).unwrap_err(), expected);
    assert_eq!(SyncPath::from_value(&ScriptValue::Boolean(true)).unwrap_err(), expected);
    assert_eq!(SyncPath::from_value(&eval("42")).unwrap_err(), expected);
    assert_eq!(SyncPath::from_value(&eval("{'a', 7}")).unwrap_err(), expected);
    assert_eq!(SyncPath::from_value(&eval("{a = 'b'}")).unwrap_err(), expected);
    assert_eq!(
        SyncPath::from_value(&ScriptValue::List(vec![])).unwrap(),
        SyncPath::Multiple(vec![])
    );
}

#[test]
fn exec_options_refuse_what_is_no_option() {
    let expected = conversion("ExecOptions", "expected a boolean or a table with reply and etor");
    for source in [
        "nil",
        "'yes'",
        "{}",
        "{etor = 'sh'}",
        "{reply = 'yes'}",
        "{reply = true, etor = 'fish'}",
        "{reply = true, etor = 1}",
        "{'true'}",
    ] {
        assert_eq!(ExecOptions::from_value(&eval(source)).unwrap_err(), expected, "{}", source);
    }
    let opt = exec_options_des_suc_f("{reply = true, etor = 'powershell', more = 1}");
    assert_eq!(opt, ExecOptions { reply: true, etor: Some(ScriptExecutor::Powershell) });
    assert_eq!(ExecOptions::default(), ExecOptions { reply: false, etor: None });
    assert_eq!(ScriptExecutor::from_name("SH"), None);
}

#[test]
fn later_field_of_a_table_counts() {
    let entries = vec![
        ("a".to_string(), text("1")),
        ("b".to_string(), ScriptValue::Nil),
        ("a".to_string(), text("2")),
    ];
    assert!(matches!(get_field(&entries, "a"), Some(ScriptValue::Text(s)) if s == "2"));
    assert!(matches!(get_field(&entries, "b"), Some(ScriptValue::Nil)));
    assert!(get_field(&entries, "c").is_none());
    assert_eq!(get_texts(&vec![text("x"), text("y")]), Some(vec!["x".to_string(), "y".to_string()]));
    assert_eq!(get_texts(&vec![text("x"), ScriptValue::Other]), None);
    assert_eq!(get_texts(&vec![]), Some(vec![]));
}

#[test]
fn prepare_reads_a_configuration() {
    let entries = vec![
        ("hid".to_string(), text("box")),
        ("is_system".to_string(), ScriptValue::Boolean(true)),
        ("retries".to_string(), ScriptValue::Other),
        ("verbose".to_string(), ScriptValue::Boolean(true)),
        ("user".to_string(), text("alice")),
        ("hid".to_string(), text("desk")),
    ];
    let config = prepare(&entries);
    assert_eq!(config.is_system, Some(true));
    assert_eq!(config.get("hid"), Some(&"desk".to_string()));
    assert_eq!(config.get("user"), Some(&"alice".to_string()));
    assert_eq!(config.get("retries"), None);
    assert_eq!(config.get("verbose"), None);
    assert_eq!(config.get("is_system"), None);

    let config = prepare(&vec![("is_system".to_string(), text("yes"))]);
    assert_eq!(config.is_system, None);
    assert_eq!(config.get("is_system"), Some(&"yes".to_string()));
    assert_eq!(prepare(&vec![]).is_system, None);
}

#[test]
fn packages_by_manager() {
    let all = Packages::from_value(&text("git curl")).unwrap();
    assert_eq!(all.select(PmKind::Apt), Some(&"git curl".to_string()));
    assert_eq!(all.select(PmKind::WinGet), Some(&"git curl".to_string()));

    let named = Packages::from_value(&eval("{apt = 'fd-find', pacman = 'fd'}")).unwrap();
    assert_eq!(named.select(PmKind::Apt), Some(&"fd-find".to_string()));
    assert_eq!(named.select(PmKind::Pacman), Some(&"fd".to_string()));
    assert_eq!(named.select(PmKind::Brew), None);

    let mut mixed = Packages::all("ripgrep".to_string());
    mixed.set(PmKind::Apk, "rg".to_string());
    assert_eq!(mixed.select(PmKind::Apk), Some(&"rg".to_string()));
    assert_eq!(mixed.select(PmKind::Yay), Some(&"ripgrep".to_string()));
    assert_eq!(Packages::new().select(PmKind::Apt), None);

    let expected = conversion("Packages", "expected package names or a table of them");
    assert_eq!(Packages::from_value(&eval("{apt = 1}")).unwrap_err(), expected);
    assert_eq!(Packages::from_value(&ScriptValue::Nil).unwrap_err(), expected);
    assert_eq!(Packages::from_value(&eval("{'git'}")).unwrap_err(), expected);
}
