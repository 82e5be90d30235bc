use envconf::{Catalog, DefaultLiteral, Environment, Error, FieldSpec, FieldType, Setting, Value};

struct TestSettings {
    pub number: usize,
    pub test: String,
    pub onlyenv: usize,
    pub default: usize,
}

fn field(name: &str, env: Option<&str>, default: Option<DefaultLiteral>, ty: FieldType) -> FieldSpec {
    FieldSpec {
        name: name.to_string(),
        env: env.map(|e| e.to_string()),
        default,
        ty,
    }
}

fn test_catalog() -> Catalog {
    Catalog::new(vec![
        field(
            "number",
            Some("ENVCONF_NUMBER"),
            Some(DefaultLiteral::Text("3000".to_string())),
            FieldType::Unsigned,
        ),
        field("test", Some("ENVCONF_STRING"), Some(DefaultLiteral::Number(3000)), FieldType::Text),
        field("onlyenv", Some("ENVCONF_ONLYENV"), None, FieldType::Unsigned),
        field("default", None, Some(DefaultLiteral::Number(1000)), FieldType::Unsigned),
    ])
    .unwrap()
}

fn unsigned(v: &Value) -> usize {
    match v {
        Value::Unsigned(n) => *n,
        other => panic!("not an unsigned value: {:?}", other),
    }
}

fn text(v: &Value) -> String {
    match v {
        Value::Text(s) => s.clone(),
        other => panic!("not a text value: {:?}", other),
    }
}

impl Setting for TestSettings {
    fn init(env: &Environment) -> Result<Self, Error> {
        let values = envconf::resolve(&test_catalog(), env)?;
        Ok(TestSettings {
            number: unsigned(&values[0]),
            test: text(&values[1]),
            onlyenv: unsigned(&values[2]),
            default: unsigned(&values[3]),
        })
    }
}

#[test]
fn test_setting() {
    let mut env = Environment::new();
    match TestSettings::init(&env) {
        Err(Error::MissingEnv(e)) if e == "ENVCONF_ONLYENV" => (),
        _ => assert!(false),
    }

    env.set("ENVCONF_ONLYENV", "qwerty");
    match TestSettings::init(&env) {
        Err(Error::EnvParse(n, v)) if (n == "ENVCONF_ONLYENV") && (v == "qwerty") => (),
        _ => assert!(false),
    }

    env.set("ENVCONF_ONLYENV", "50");
    match TestSettings::init(&env) {
        Ok(s) => {
            assert_eq!(s.number, 3000);
            assert_eq!(s.test, 3000.to_string());
            assert_eq!(s.onlyenv, 50);
            assert_eq!(s.default, 1000);
        }
        _ => assert!(false),
    }

    env.set("ENVCONF_NUMBER", "9999");
    match TestSettings::init(&env) {
        Ok(s) => {
            assert_eq!(s.number, 9999);
            assert_eq!(s.test, 3000.to_string());
            assert_eq!(s.onlyenv, 50);
            assert_eq!(s.default, 1000);
        }
        _ => assert!(false),
    }
}
