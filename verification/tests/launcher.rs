use potato_code::build_args;
use potato_code::check_claude_outcome;
use potato_code::version_outcome;

#[test]
fn args_for_a_plain_message() {
    let args = build_args("hola".to_string(), &None, &None);
    assert_eq!(
        args,
        vec![
            "--print".to_string(),
            "--verbose".to_string(),
            "--output-format".to_string(),
            "stream-json".to_string(),
            "--include-partial-messages".to_string(),
            "--dangerously-skip-permissions".to_string(),
            "hola".to_string(),
        ]
    );
}

#[test]
fn args_with_resume_and_model() {
    let args = build_args(
        "sigue".to_string(),
        &Some("sess-9".to_string()),
        &Some("opus".to_string()),
    );
    assert_eq!(
        args,
        vec![
            "--print".to_string(),
            "--verbose".to_string(),
            "--output-format".to_string(),
            "stream-json".to_string(),
            "--include-partial-messages".to_string(),
            "--dangerously-skip-permissions".to_string(),
            "--resume".to_string(),
            "sess-9".to_string(),
            "--model".to_string(),
            "opus".to_string(),
            "sigue".to_string(),
        ]
    );
}

#[test]
fn version_probe_outcomes() {
    assert_eq!(
        check_claude_outcome(true, &"  1.2.3  \n".to_string()),
        Ok("1.2.3".to_string())
    );
    assert_eq!(
        check_claude_outcome(false, &String::new()),
        Err(
            "El agente no esta instalado"
                .to_string()
        )
    );
    assert_eq!(version_outcome(true, &"2.0\n".to_string()), Ok("2.0".to_string()));
    assert_eq!(
        version_outcome(false, &String::new()),
        Err("No se pudo obtener la version".to_string())
    );
}
