use chay::config::{
    find_logger, first_not_plain, first_not_plain_value, latest_values, render, take_strings,
    Config, ConfigError, ContextEntries, LoggerConfig, PreCommandConfig, ProgramConfig,
    RenderedProgramConfig, TemplateError, VarsRenderer,
};
use chay::template::is_plain_template;

fn pair(name: &str, value: &str) -> (String, String) {
    (name.to_string(), value.to_string())
}

fn program(command: &str, args: &[&str], logger: Option<&str>) -> ProgramConfig {
    let mut config = ProgramConfig::default();
    config.command = command.to_string();
    config.args = Some(args.iter().map(|arg| arg.to_string()).collect());
    config.logger = logger.map(|name| name.to_string());
    config
}

fn logger(command: &str, args: &[&str]) -> LoggerConfig {
    let mut config = LoggerConfig::default();
    config.command = command.to_string();
    config.args = Some(args.iter().map(|arg| arg.to_string()).collect());
    config
}

#[test]
fn templates_know_the_environment() {
    let env = vec![pair("HOME", "/home/ops"), pair("USER", "ops")];
    let renderer = VarsRenderer::new(&Vec::new(), &env).unwrap();
    assert_eq!(renderer.render_str("{{ env.HOME }}/bin").unwrap(), "/home/ops/bin");
    assert_eq!(renderer.render_str("plain").unwrap(), "plain");
    assert_eq!(renderer.render_str("{{ env.USER }}@{{ env.HOME }}").unwrap(), "ops@/home/ops");
}

#[test]
fn later_environment_values_count() {
    let mut renderer = VarsRenderer::new(&Vec::new(), &vec![pair("A", "1")]).unwrap();
    renderer.add_env_vars(&vec![pair("A", "2"), pair("B", "3")]);
    assert_eq!(renderer.env_obj, vec![pair("A", "1"), pair("A", "2"), pair("B", "3")]);
    assert_eq!(renderer.render_str("{{ env.A }}{{ env.B }}").unwrap(), "23");
}

#[test]
fn variables_are_expanded_with_the_environment() {
    let vars = vec![(
        "paths".to_string(),
        vec![pair("bin", "{{ env.ROOT }}/bin"), pair("log", "/var/log")],
    )];
    let renderer = VarsRenderer::new(&vars, &vec![pair("ROOT", "/opt/app")]).unwrap();
    assert_eq!(
        renderer.vars,
        vec![("paths".to_string(), vec![pair("bin", "/opt/app/bin"), pair("log", "/var/log")])]
    );
    assert_eq!(renderer.render_str("{{ paths.bin }}/web").unwrap(), "/opt/app/bin/web");
    assert_eq!(renderer.chayd_obj, None);
}

#[test]
fn template_that_cannot_be_expanded_is_an_error() {
    let renderer = VarsRenderer::new(&Vec::new(), &Vec::new()).unwrap();
    assert!(renderer.render_str("{{ missing.value }}").is_err());
    assert!(renderer.render_str("{{ unclosed").is_err());
    let vars = vec![("t".to_string(), vec![pair("v", "{{ nothing }}")])];
    assert!(VarsRenderer::new(&vars, &Vec::new()).is_err());
}

#[test]
fn logger_templates_know_their_program() {
    let mut renderer = VarsRenderer::new(&Vec::new(), &Vec::new()).unwrap();
    assert!(renderer.render_str("{{ chayd.ctx.program }}").is_err());
    renderer.add_ctx_vars(&vec![pair("program", "web")]);
    assert_eq!(renderer.chayd_obj, Some(vec![pair("program", "web")]));
    assert_eq!(renderer.render_str("/var/log/{{ chayd.ctx.program }}.log").unwrap(), "/var/log/web.log");
}

#[test]
fn first_logger_of_the_name_is_found() {
    let loggers = vec![
        ("file".to_string(), logger("/bin/tee", &["a"])),
        ("syslog".to_string(), logger("/bin/logger", &[])),
        ("file".to_string(), logger("/bin/cat", &[])),
    ];
    assert_eq!(find_logger(&loggers, &"file".to_string()), Some(&loggers[0].1));
    assert_eq!(find_logger(&loggers, &"syslog".to_string()), Some(&loggers[1].1));
    assert_eq!(find_logger(&loggers, &"File".to_string()), None);
    assert_eq!(find_logger(&Vec::new(), &"file".to_string()), None);
}

fn sample() -> Config {
    let mut web = program("{{ dirs.bin }}/web", &["--home", "{{ env.HOME }}"], Some("file"));
    web.pre_command = Some(PreCommandConfig {
        command: "{{ dirs.bin }}/migrate".to_string(),
        args: Some(vec!["{{ env.HOME }}".to_string()]),
        timeout_secs: 9,
    });
    web.num_restart_attempts = 2;
    web.autostart = false;
    let mut file = logger("/bin/tee", &["/var/log/{{ chayd.ctx.program }}.log"]);
    file.start_wait_secs = 3;
    file.pre_command = Some(PreCommandConfig {
        command: "/bin/touch".to_string(),
        args: Some(vec!["/var/log/{{ chayd.ctx.program }}.log".to_string()]),
        timeout_secs: 2,
    });
    Config {
        vars: vec![("dirs".to_string(), vec![pair("bin", "/opt/bin")])],
        programs: vec![
            ("db".to_string(), program("/usr/bin/db", &[], None)),
            ("web".to_string(), web),
        ],
        loggers: vec![("file".to_string(), file)],
    }
}

#[test]
fn every_program_is_rendered_under_its_name() {
    let rendered = render(&sample(), &vec![pair("HOME", "/srv")]).unwrap();
    assert_eq!(rendered.len(), 2);
    assert_eq!(rendered[0].0, "db");
    assert_eq!(rendered[0].1.program.command, "/usr/bin/db");
    assert_eq!(rendered[0].1.program.args, Some(Vec::new()));
    assert_eq!(rendered[0].1.logger, None);
    assert_eq!(rendered[1].0, "web");
    let web = &rendered[1].1;
    assert_eq!(web.program.command, "/opt/bin/web");
    assert_eq!(web.program.args, Some(vec!["--home".to_string(), "/srv".to_string()]));
    assert_eq!(web.program.num_restart_attempts, 2);
    assert!(!web.program.autostart);
    assert!(web.program.autorestart);
    assert_eq!(web.program.logger, Some("file".to_string()));
    assert_eq!(
        web.program.pre_command,
        Some(PreCommandConfig {
            command: "/opt/bin/migrate".to_string(),
            args: Some(vec!["/srv".to_string()]),
            timeout_secs: 9,
        })
    );
    let file = web.logger.as_ref().unwrap();
    assert_eq!(file.command, "/bin/tee");
    assert_eq!(file.args, Some(vec!["/var/log/web.log".to_string()]));
    assert_eq!(file.start_wait_secs, 3);
    assert_eq!(
        file.pre_command,
        Some(PreCommandConfig {
            command: "/bin/touch".to_string(),
            args: Some(vec!["/var/log/web.log".to_string()]),
            timeout_secs: 2,
        })
    );
}

#[test]
fn program_that_names_a_missing_logger_is_refused() {
    let mut config = sample();
    config.programs[1].1.logger = Some("journal".to_string());
    match render(&config, &vec![pair("HOME", "/srv")]) {
        Err(ConfigError::LoggerNotFound { logger_name }) => {
            assert_eq!(logger_name, "journal");
            assert_eq!(
                ConfigError::logger_not_found_message(&logger_name),
                "Logger not found: journal"
            );
        }
        other => panic!("unexpected: {:?}", other),
    }
}

#[test]
fn program_with_a_template_that_cannot_be_expanded_is_refused() {
    // Without HOME in the environment the arguments of the web program cannot be expanded.
    assert!(matches!(render(&sample(), &Vec::new()), Err(ConfigError::Template { .. })));
}

#[test]
fn one_program_is_rendered_with_its_logger() {
    let config = sample();
    let rendered = RenderedProgramConfig::new(
        &config,
        "api",
        &config.programs[1].1,
        &vec![pair("HOME", "/home/api")],
    )
    .unwrap();
    assert_eq!(rendered.program.args, Some(vec!["--home".to_string(), "/home/api".to_string()]));
    assert_eq!(
        rendered.logger.unwrap().args,
        Some(vec!["/var/log/api.log".to_string()])
    );
}

#[test]
fn nothing_to_expand_cannot_fail() {
    let renderer = VarsRenderer::new(&Vec::new(), &Vec::new()).unwrap();
    assert_eq!(renderer.render_all(&Vec::new()).unwrap(), Vec::<String>::new());
    assert_eq!(renderer.render_vars_config(&Vec::new()).unwrap(), Vec::new());
    let empty_tables = vec![("a".to_string(), Vec::new()), ("b".to_string(), Vec::new())];
    assert_eq!(renderer.render_vars_config(&empty_tables).unwrap(), empty_tables);
    let with_tables = VarsRenderer::new(&empty_tables, &vec![pair("K", "v")]).unwrap();
    assert_eq!(with_tables.vars, empty_tables);
    assert_eq!(with_tables.env_obj, vec![pair("K", "v")]);
    let no_programs = Config { vars: Vec::new(), programs: Vec::new(), loggers: Vec::new() };
    assert_eq!(render(&no_programs, &Vec::new()).unwrap(), Vec::new());
}

#[test]
fn arguments_and_helpers_are_expanded_one_by_one() {
    let renderer = VarsRenderer::new(&Vec::new(), &vec![pair("X", "1")]).unwrap();
    let mut web = program("/bin/{{ env.X }}", &["{{ env.X }}", "b", "{{ env.X }}{{ env.X }}"], None);
    web.pre_command = Some(PreCommandConfig {
        command: "/pre/{{ env.X }}".to_string(),
        args: Some(vec!["{{ env.X }}".to_string()]),
        timeout_secs: 7,
    });
    let rendered = RenderedProgramConfig::render_program(&web, &renderer).unwrap();
    assert_eq!(rendered.command, "/bin/1");
    assert_eq!(
        rendered.args,
        Some(vec!["1".to_string(), "b".to_string(), "11".to_string()])
    );
    assert_eq!(
        rendered.pre_command,
        Some(PreCommandConfig {
            command: "/pre/1".to_string(),
            args: Some(vec!["1".to_string()]),
            timeout_secs: 7,
        })
    );
    web.args = Some(vec!["{{ env.Y }}".to_string()]);
    assert!(matches!(
        RenderedProgramConfig::render_program(&web, &renderer),
        Err(TemplateError::Engine { .. })
    ));
}

#[test]
fn rendering_a_logger_tells_the_templates_its_program() {
    let mut renderer =
        VarsRenderer::new(&vec![("t".to_string(), vec![pair("k", "v")])], &vec![pair("E", "e")])
            .unwrap();
    let config = logger("/bin/tee", &["{{ chayd.ctx.program }}-{{ t.k }}-{{ env.E }}"]);
    let rendered = RenderedProgramConfig::render_logger(&config, "web", &mut renderer).unwrap();
    assert_eq!(rendered.args, Some(vec!["web-v-e".to_string()]));
    assert_eq!(renderer.chayd_obj, Some(vec![pair("program", "web")]));
    assert_eq!(renderer.vars, vec![("t".to_string(), vec![pair("k", "v")])]);
    assert_eq!(renderer.env_obj, vec![pair("E", "e")]);
    // The program is made known even when the logger cannot be rendered.
    let broken = logger("{{ nothing }}", &[]);
    assert!(RenderedProgramConfig::render_logger(&broken, "api", &mut renderer).is_err());
    assert_eq!(renderer.chayd_obj, Some(vec![pair("program", "api")]));
}

#[test]
fn rendered_strings_take_the_place_of_the_templates() {
    let strings = |list: &[&str]| -> Vec<String> { list.iter().map(|s| s.to_string()).collect() };
    let helper = PreCommandConfig {
        command: "a".to_string(),
        args: Some(strings(&["x", "y"])),
        timeout_secs: 5,
    };
    assert_eq!(helper.templates(), strings(&["a", "x", "y"]));
    assert_eq!(
        helper.with_rendered(&strings(&["b", "1", "2"])),
        PreCommandConfig { command: "b".to_string(), args: Some(strings(&["1", "2"])), timeout_secs: 5 }
    );
    let bare = PreCommandConfig { command: "c".to_string(), args: None, timeout_secs: 1 };
    assert_eq!(bare.templates(), strings(&["c"]));
    assert_eq!(bare.with_rendered(&strings(&["d"])).args, None);
    let mut file = logger("/bin/tee", &["x"]);
    file.start_wait_secs = 8;
    file.pre_command = Some(helper.clone());
    assert_eq!(file.templates(), strings(&["/bin/tee", "x", "a", "x", "y"]));
    let rendered = file.with_rendered(&strings(&["T", "X", "A", "1", "2"]));
    assert_eq!(rendered.command, "T");
    assert_eq!(rendered.args, Some(strings(&["X"])));
    assert_eq!(
        rendered.pre_command,
        Some(PreCommandConfig { command: "A".to_string(), args: Some(strings(&["1", "2"])), timeout_secs: 5 })
    );
    assert_eq!(rendered.start_wait_secs, 8);
    let mut web = program("{{ t }}", &["{{ u }}", "v"], Some("file"));
    web.autostart = false;
    web.backoff_delay_secs = 9;
    web.num_restart_attempts = 3;
    web.sigkill_delay_secs = 2;
    web.start_wait_secs = 6;
    assert_eq!(web.templates(), strings(&["{{ t }}", "{{ u }}", "v"]));
    let rendered = web.with_rendered(&strings(&["/bin/web", "-u", "v"]));
    assert_eq!(rendered.command, "/bin/web");
    assert_eq!(rendered.args, Some(strings(&["-u", "v"])));
    assert_eq!(rendered.pre_command, None);
    assert_eq!(rendered.logger, Some("file".to_string()));
    assert!(!rendered.autostart);
    assert!(rendered.autorestart);
    assert_eq!(rendered.backoff_delay_secs, 9);
    assert_eq!(rendered.num_restart_attempts, 3);
    assert_eq!(rendered.sigkill_delay_secs, 2);
    assert_eq!(rendered.start_wait_secs, 6);
    web.args = None;
    web.pre_command = Some(bare);
    assert_eq!(web.templates(), strings(&["{{ t }}", "c"]));
    let rendered = web.with_rendered(&strings(&["w", "C"]));
    assert_eq!(rendered.args, None);
    assert_eq!(rendered.pre_command.unwrap().command, "C");
}

#[test]
fn program_is_rendered_with_the_variables() {
    let renderer = VarsRenderer::new(
        &vec![("dirs".to_string(), vec![pair("bin", "/opt/bin")])],
        &Vec::new(),
    )
    .unwrap();
    let mut web = program("{{ dirs.bin }}/web", &["-v"], Some("file"));
    web.num_restart_attempts = 6;
    let rendered = RenderedProgramConfig::render_program(&web, &renderer).unwrap();
    assert_eq!(rendered.command, "/opt/bin/web");
    assert_eq!(rendered.args, Some(vec!["-v".to_string()]));
    assert_eq!(rendered.logger, Some("file".to_string()));
    assert_eq!(rendered.num_restart_attempts, 6);
    assert!(RenderedProgramConfig::render_program(&program("{{ dirs.lib }}", &[], None), &renderer).is_err());
}

#[test]
fn plain_templates_are_text_with_variables() {
    assert!(is_plain_template(""));
    assert!(is_plain_template("/usr/bin/web --port 8080"));
    assert!(is_plain_template("{{ env.HOME }}/bin"));
    assert!(is_plain_template("{{env.HOME}}"));
    assert!(is_plain_template("{{\t a_b.c1.2 \n}}"));
    assert!(is_plain_template("a{{ x }}b{{ y.z }}c"));
    assert!(is_plain_template("50% of {x} is }} fine"));
    assert!(is_plain_template("caf\u{e9} {{ name }} \u{1f600}"));
    assert!(is_plain_template("{"));
    assert!(is_plain_template("a{"));
    assert!(!is_plain_template("{{"));
    assert!(!is_plain_template("{{ }}"));
    assert!(!is_plain_template("{{ x"));
    assert!(!is_plain_template("{{ x }"));
    assert!(!is_plain_template("{{ x. }}"));
    assert!(!is_plain_template("{{ .x }}"));
    assert!(!is_plain_template("{{ 1x }}"));
    assert!(!is_plain_template("{{ x y }}"));
    assert!(!is_plain_template("{{ x | upper }}"));
    assert!(!is_plain_template("{{ 1.5 + 2.5 }}"));
    assert!(!is_plain_template("{{ \"text\" }}"));
    assert!(!is_plain_template("{{- x -}}"));
    assert!(!is_plain_template("{% if x %}y{% endif %}"));
    assert!(!is_plain_template("{# note #}"));
    assert!(!is_plain_template("{{ range(end=5) }}"));
    assert!(!is_plain_template("{{ x[0] }}"));
}

#[test]
fn template_that_is_not_plain_is_not_handed_to_the_engine() {
    let renderer = VarsRenderer::new(&Vec::new(), &vec![pair("X", "1")]).unwrap();
    match renderer.render_str("{{ env.X | upper }}") {
        Err(TemplateError::NotPlain { template }) => assert_eq!(template, "{{ env.X | upper }}"),
        other => panic!("unexpected: {:?}", other),
    }
    assert!(matches!(
        renderer.render_str("{{ 100000000000000000000.0 + 1.0 }}"),
        Err(TemplateError::NotPlain { .. })
    ));
    assert!(matches!(renderer.render_str("{{ env.Y }}"), Err(TemplateError::Engine { .. })));
    assert_eq!(renderer.render_str("{{ env.X }}").unwrap(), "1");
    // If one template of a list is not plain, none is expanded.
    let list = vec!["{{ env.Y }}".to_string(), "{% raw %}".to_string()];
    match renderer.render_all(&list) {
        Err(TemplateError::NotPlain { template }) => assert_eq!(template, "{% raw %}"),
        other => panic!("unexpected: {:?}", other),
    }
    assert!(matches!(
        renderer.render_all(&vec!["{{ env.Y }}".to_string()]),
        Err(TemplateError::Engine { .. })
    ));
    assert_eq!(
        renderer.render_all(&vec!["a".to_string(), "{{ env.X }}b".to_string()]).unwrap(),
        vec!["a".to_string(), "1b".to_string()]
    );
    assert_eq!(renderer.render_all(&Vec::new()).unwrap(), Vec::<String>::new());
    let broken = program("{{ env.X + 1 }}", &[], None);
    assert!(matches!(
        RenderedProgramConfig::render_program(&broken, &renderer),
        Err(TemplateError::NotPlain { .. })
    ));
    let mut config = sample();
    config.programs[0].1.command = "{% include \"x\" %}".to_string();
    assert!(matches!(
        render(&config, &vec![pair("HOME", "/srv")]),
        Err(ConfigError::Template { error: TemplateError::NotPlain { .. } })
    ));
    let vars = vec![("t".to_string(), vec![pair("v", "{{ 1 / 0 }}")])];
    assert!(matches!(
        VarsRenderer::new(&vars, &Vec::new()),
        Err(TemplateError::NotPlain { .. })
    ));
}

#[test]
fn latest_value_of_a_name_counts() {
    let table = vec![pair("a", "1"), pair("b", "2"), pair("a", "3"), pair("c", "4"), pair("b", "5")];
    assert_eq!(latest_values(&table), vec![pair("a", "3"), pair("c", "4"), pair("b", "5")]);
    assert_eq!(latest_values(&Vec::new()), Vec::new());
    assert_eq!(latest_values(&vec![pair("a", "1")]), vec![pair("a", "1")]);
    assert_eq!(latest_values(&vec![pair("a", "1"), pair("a", "1")]), vec![pair("a", "1")]);
}

#[test]
fn context_lists_the_environment_the_tables_and_the_program() {
    let vars = vec![
        ("dirs".to_string(), vec![pair("bin", "/b"), pair("bin", "/c")]),
        ("env".to_string(), vec![pair("HOME", "/override")]),
    ];
    let mut renderer =
        VarsRenderer::new(&vars, &vec![pair("HOME", "/h"), pair("HOME", "/i")]).unwrap();
    assert_eq!(
        renderer.context_entries(),
        ContextEntries {
            tables: vec![
                ("env".to_string(), vec![pair("HOME", "/i")]),
                ("dirs".to_string(), vec![pair("bin", "/c")]),
                ("env".to_string(), vec![pair("HOME", "/override")]),
            ],
            objects: Vec::new(),
        }
    );
    // A table of the name `env` takes the place of the environment.
    assert_eq!(renderer.render_str("{{ env.HOME }}{{ dirs.bin }}").unwrap(), "/override/c");
    renderer.add_ctx_vars(&vec![pair("program", "a"), pair("program", "b")]);
    assert_eq!(
        renderer.context_entries().objects,
        vec![("chayd".to_string(), vec![("ctx".to_string(), vec![pair("program", "b")])])]
    );
    assert_eq!(renderer.render_str("{{ chayd.ctx.program }}").unwrap(), "b");
}

#[test]
fn strings_are_taken_from_a_list_in_order() {
    let list = vec!["a".to_string(), "b".to_string(), "c".to_string()];
    assert_eq!(take_strings(&list, 1, 3), vec!["b".to_string(), "c".to_string()]);
    assert_eq!(take_strings(&list, 0, 1), vec!["a".to_string()]);
    assert_eq!(take_strings(&list, 2, 2), Vec::<String>::new());
}

#[test]
fn configuration_is_kept_in_the_order_of_its_names() {
    let mut config = sample();
    assert!(config.is_wf());
    let rendered = render(&config, &vec![pair("HOME", "/srv")]).unwrap();
    let names: Vec<&str> = rendered.iter().map(|entry| entry.0.as_str()).collect();
    assert_eq!(names, vec!["db", "web"]);
    config.programs.swap(0, 1);
    assert!(!config.is_wf());
    config.programs.swap(0, 1);
    config.programs[1].0 = "db".to_string();
    assert!(!config.is_wf());
    config.programs[1].0 = "web".to_string();
    config.loggers.push(("file".to_string(), logger("/bin/cat", &[])));
    assert!(!config.is_wf());
    config.loggers[1].0 = "syslog".to_string();
    assert!(config.is_wf());
    let empty = Config { vars: Vec::new(), programs: Vec::new(), loggers: Vec::new() };
    assert!(empty.is_wf());
}

#[test]
fn first_template_that_is_not_plain_is_found() {
    let list = vec!["a".to_string(), "{{ x | y }}".to_string(), "{% z %}".to_string()];
    assert_eq!(first_not_plain(&list), Some("{{ x | y }}".to_string()));
    assert_eq!(first_not_plain(&vec!["a".to_string(), "{{ b }}".to_string()]), None);
    assert_eq!(first_not_plain(&Vec::new()), None);
    let vars = vec![
        ("t".to_string(), vec![pair("a", "{{ env.A }}")]),
        ("u".to_string(), vec![pair("b", "plain"), pair("c", "{{ 1 }}"), pair("d", "{{ 2 }}")]),
    ];
    assert_eq!(first_not_plain_value(&vars), Some("{{ 1 }}".to_string()));
    assert_eq!(first_not_plain_value(&vars[..1].to_vec()), None);
    assert_eq!(first_not_plain_value(&Vec::new()), None);
}

#[test]
fn template_that_is_not_plain_comes_before_every_other_failure() {
    let env = vec![pair("HOME", "/srv")];
    // The logger is found and has a template that is not plain, while the program
    // cannot be expanded: nothing is handed to the engine.
    let mut config = sample();
    config.programs[1].1.command = "{{ env.MISSING }}".to_string();
    config.loggers[0].1.command = "{{ 1 + 1 }}".to_string();
    match RenderedProgramConfig::new(&config, "web", &config.programs[1].1, &env) {
        Err(ConfigError::Template { error: TemplateError::NotPlain { template } }) => {
            assert_eq!(template, "{{ 1 + 1 }}")
        }
        other => panic!("unexpected: {:?}", other),
    }
    // A value of the variables that is not plain comes first of all.
    config.vars[0].1.push(pair("lib", "{{ x | upper }}"));
    match RenderedProgramConfig::new(&config, "web", &config.programs[1].1, &env) {
        Err(ConfigError::Template { error: TemplateError::NotPlain { template } }) => {
            assert_eq!(template, "{{ x | upper }}")
        }
        other => panic!("unexpected: {:?}", other),
    }
}

#[test]
fn missing_logger_is_told_once_the_program_is_expanded() {
    let env = vec![pair("HOME", "/srv")];
    let mut config = sample();
    config.programs[1].1.logger = Some("journal".to_string());
    assert!(matches!(
        RenderedProgramConfig::new(&config, "web", &config.programs[1].1, &env),
        Err(ConfigError::LoggerNotFound { .. })
    ));
    // If the program cannot be expanded, that is what is told.
    assert!(matches!(
        RenderedProgramConfig::new(&config, "web", &config.programs[1].1, &Vec::new()),
        Err(ConfigError::Template { error: TemplateError::Engine { .. } })
    ));
    // A logger that is there and cannot be expanded is an error of the engine.
    let mut config = sample();
    config.loggers[0].1.command = "{{ nothing }}".to_string();
    assert!(matches!(
        RenderedProgramConfig::new(&config, "web", &config.programs[1].1, &env),
        Err(ConfigError::Template { error: TemplateError::Engine { .. } })
    ));
    // A program without a logger is rendered without one.
    let rendered = RenderedProgramConfig::new(&config, "db", &config.programs[0].1, &env).unwrap();
    assert_eq!(rendered.logger, None);
}

#[test]
fn first_program_that_fails_decides() {
    let env = vec![pair("HOME", "/srv")];
    let mut config = sample();
    config.programs[0].1.logger = Some("nowhere".to_string());
    config.programs[1].1.command = "{{ 1 }}".to_string();
    match render(&config, &env) {
        Err(ConfigError::LoggerNotFound { logger_name }) => assert_eq!(logger_name, "nowhere"),
        other => panic!("unexpected: {:?}", other),
    }
    config.programs[0].1.logger = None;
    assert!(matches!(
        render(&config, &env),
        Err(ConfigError::Template { error: TemplateError::NotPlain { .. } })
    ));
}
