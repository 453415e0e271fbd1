use launcher::launch;
use launcher::protocol::{Effect, Reply, Request, UnexpectedReply};
use launcher::provision;

fn probe(path: &str) -> Request {
    Request::Probe { path: path.to_string() }
}

fn failed(error: &str) -> Reply {
    Reply::Failed { error: error.to_string() }
}

fn effect(lines: &[&str], request: Request) -> Effect {
    Effect { lines: lines.iter().map(|line| line.to_string()).collect(), request }
}

fn write_config() -> Request {
    Request::WriteNewFile {
        path: "config/config.json".to_string(),
        contents: b"{\n  \"servidores\": []\n}".to_vec(),
    }
}

fn spawn() -> Request {
    Request::Spawn { program: "ZabbixManager-Console.exe".to_string() }
}

fn all_replies() -> Vec<Reply> {
    vec![
        Reply::Exists(true),
        Reply::Exists(false),
        Reply::Succeeded,
        failed("broken"),
        Reply::LineRead,
    ]
}

#[test]
fn effect_builders() {
    assert_eq!(Effect::silent(Request::ReadLine), effect(&[], Request::ReadLine));
    assert_eq!(
        Effect::saying("one".to_string(), Request::Finish),
        effect(&["one"], Request::Finish)
    );
    let mut built = Effect::saying("one".to_string(), probe("here"));
    built.then_say("two".to_string());
    built.then_say("three".to_string());
    assert_eq!(built, effect(&["one", "two", "three"], probe("here")));
}

#[test]
fn clones_are_equal() {
    let requests = vec![
        probe("a"),
        Request::CreateDir { path: "b".to_string() },
        write_config(),
        spawn(),
        Request::ReadLine,
        Request::Finish,
    ];
    for request in &requests {
        assert_eq!(&request.clone(), request);
    }
    for reply in &all_replies() {
        assert_eq!(&reply.clone(), reply);
    }
    let turn = effect(&["x", "y"], write_config());
    assert_eq!(turn.clone(), turn);
}

#[test]
fn provisioning_opens_with_the_dir_probe() {
    let (phase, turn) = provision::begin();
    assert_eq!(phase, provision::Phase::DirProbe);
    assert_eq!(turn, effect(&[], probe("config")));
}

#[test]
fn provisioning_skips_an_existing_dir() {
    assert_eq!(
        provision::step(provision::Phase::DirProbe, Reply::Exists(true)),
        Ok((provision::Phase::FileProbe, effect(&[], probe("config/config.json"))))
    );
}

#[test]
fn provisioning_makes_a_missing_dir() {
    assert_eq!(
        provision::step(provision::Phase::DirProbe, Reply::Exists(false)),
        Ok((
            provision::Phase::DirCreation,
            effect(&[], Request::CreateDir { path: "config".to_string() })
        ))
    );
}

#[test]
fn provisioning_reports_the_new_dir() {
    assert_eq!(
        provision::step(provision::Phase::DirCreation, Reply::Succeeded),
        Ok((
            provision::Phase::FileProbe,
            effect(&["Diretório de configuração 'config' criado."], probe("config/config.json"))
        ))
    );
}

#[test]
fn provisioning_goes_on_after_a_failed_dir() {
    assert_eq!(
        provision::step(provision::Phase::DirCreation, failed("File exists (os error 17)")),
        Ok((
            provision::Phase::FileProbe,
            effect(
                &["Erro ao criar diretório de configuração: File exists (os error 17)"],
                probe("config/config.json")
            )
        ))
    );
}

#[test]
fn provisioning_skips_an_existing_file() {
    assert_eq!(
        provision::step(provision::Phase::FileProbe, Reply::Exists(true)),
        Ok((provision::Phase::Complete, effect(&[], Request::Finish)))
    );
}

#[test]
fn provisioning_writes_a_missing_file() {
    assert_eq!(
        provision::step(provision::Phase::FileProbe, Reply::Exists(false)),
        Ok((provision::Phase::FileCreation, effect(&[], write_config())))
    );
}

#[test]
fn provisioning_reports_the_new_file() {
    assert_eq!(
        provision::step(provision::Phase::FileCreation, Reply::Succeeded),
        Ok((
            provision::Phase::Complete,
            effect(
                &["Arquivo de configuração inicial 'config/config.json' criado."],
                Request::Finish
            )
        ))
    );
}

#[test]
fn provisioning_ends_after_a_failed_file() {
    assert_eq!(
        provision::step(provision::Phase::FileCreation, failed("disk full")),
        Ok((
            provision::Phase::Complete,
            effect(&["Erro ao criar arquivo de configuração: disk full"], Request::Finish)
        ))
    );
}

#[test]
fn provisioning_refuses_what_does_not_answer() {
    let probes = [provision::Phase::DirProbe, provision::Phase::FileProbe];
    let actions = [provision::Phase::DirCreation, provision::Phase::FileCreation];
    for reply in all_replies() {
        let is_exists = matches!(reply, Reply::Exists(_));
        let is_outcome = matches!(reply, Reply::Succeeded | Reply::Failed { .. });
        for phase in probes {
            assert_eq!(provision::step(phase, reply.clone()).is_ok(), is_exists);
        }
        for phase in actions {
            assert_eq!(provision::step(phase, reply.clone()).is_ok(), is_outcome);
        }
        assert_eq!(
            provision::step(provision::Phase::Complete, reply.clone()),
            Err(UnexpectedReply)
        );
    }
    assert_eq!(
        provision::step(provision::Phase::DirProbe, Reply::Succeeded),
        Err(UnexpectedReply)
    );
    assert_eq!(
        provision::step(provision::Phase::FileCreation, Reply::Exists(true)),
        Err(UnexpectedReply)
    );
}

#[test]
fn run_opens_with_the_banner_and_the_executable_probe() {
    let (phase, turn) = launch::begin();
    assert_eq!(phase, launch::Phase::ExecutableProbe);
    assert_eq!(
        turn,
        effect(&["=== Zabbix Manager Launcher ==="], probe("ZabbixManager-Console.exe"))
    );
}

#[test]
fn run_pauses_over_a_missing_executable() {
    assert_eq!(
        launch::step(launch::Phase::ExecutableProbe, Reply::Exists(false)),
        Ok((
            launch::Phase::Acknowledgement,
            effect(
                &[
                    "Erro: ZabbixManager-Console.exe não encontrado!",
                    "Verifique se o executável está na mesma pasta deste launcher.",
                    "Pressione ENTER para continuar...",
                ],
                Request::ReadLine
            )
        ))
    );
}

#[test]
fn run_provisions_once_the_executable_is_found() {
    assert_eq!(
        launch::step(launch::Phase::ExecutableProbe, Reply::Exists(true)),
        Ok((
            launch::Phase::Provisioning(provision::Phase::DirProbe),
            effect(&[], probe("config"))
        ))
    );
}

#[test]
fn run_hands_provisioning_on_unchanged() {
    let replies = [Reply::Exists(true), Reply::Exists(false), Reply::Succeeded, failed("no")];
    let phases = [
        provision::Phase::DirProbe,
        provision::Phase::DirCreation,
        provision::Phase::FileProbe,
    ];
    for phase in phases {
        for reply in &replies {
            let inner = provision::step(phase, reply.clone());
            let outer = launch::step(launch::Phase::Provisioning(phase), reply.clone());
            match inner {
                Ok((after, turn)) if after != provision::Phase::Complete => {
                    assert_eq!(outer, Ok((launch::Phase::Provisioning(after), turn)));
                }
                Ok(_) => {}
                Err(refused) => assert_eq!(outer, Err(refused)),
            }
        }
    }
}

#[test]
fn run_starts_the_companion_when_the_file_is_there() {
    assert_eq!(
        launch::step(
            launch::Phase::Provisioning(provision::Phase::FileProbe),
            Reply::Exists(true)
        ),
        Ok((launch::Phase::Spawn, effect(&["Iniciando ZabbixManager-Console.exe..."], spawn())))
    );
}

#[test]
fn run_starts_the_companion_after_writing_the_file() {
    assert_eq!(
        launch::step(
            launch::Phase::Provisioning(provision::Phase::FileCreation),
            Reply::Succeeded
        ),
        Ok((
            launch::Phase::Spawn,
            effect(
                &[
                    "Arquivo de configuração inicial 'config/config.json' criado.",
                    "Iniciando ZabbixManager-Console.exe...",
                ],
                spawn()
            )
        ))
    );
}

#[test]
fn run_starts_the_companion_after_failing_to_write_the_file() {
    assert_eq!(
        launch::step(
            launch::Phase::Provisioning(provision::Phase::FileCreation),
            failed("Not a directory (os error 20)")
        ),
        Ok((
            launch::Phase::Spawn,
            effect(
                &[
                    "Erro ao criar arquivo de configuração: Not a directory (os error 20)",
                    "Iniciando ZabbixManager-Console.exe...",
                ],
                spawn()
            )
        ))
    );
}

#[test]
fn run_ends_at_once_after_a_start() {
    assert_eq!(
        launch::step(launch::Phase::Spawn, Reply::Succeeded),
        Ok((launch::Phase::Finished, effect(&["Aplicativo iniciado com sucesso!"], Request::Finish)))
    );
}

#[test]
fn run_pauses_over_a_failed_start() {
    assert_eq!(
        launch::step(launch::Phase::Spawn, failed("Permission denied (os error 13)")),
        Ok((
            launch::Phase::Acknowledgement,
            effect(
                &[
                    "Erro ao iniciar o aplicativo: Permission denied (os error 13)",
                    "Pressione ENTER para continuar...",
                ],
                Request::ReadLine
            )
        ))
    );
}

#[test]
fn run_ends_silently_after_the_pause() {
    assert_eq!(
        launch::step(launch::Phase::Acknowledgement, Reply::LineRead),
        Ok((launch::Phase::Finished, effect(&[], Request::Finish)))
    );
}

#[test]
fn run_refuses_what_does_not_answer() {
    for reply in all_replies() {
        let is_exists = matches!(reply, Reply::Exists(_));
        let is_outcome = matches!(reply, Reply::Succeeded | Reply::Failed { .. });
        let is_line = matches!(reply, Reply::LineRead);
        assert_eq!(
            launch::step(launch::Phase::ExecutableProbe, reply.clone()).is_ok(),
            is_exists
        );
        assert_eq!(launch::step(launch::Phase::Spawn, reply.clone()).is_ok(), is_outcome);
        assert_eq!(launch::step(launch::Phase::Acknowledgement, reply.clone()).is_ok(), is_line);
        assert_eq!(launch::step(launch::Phase::Finished, reply.clone()), Err(UnexpectedReply));
        assert_eq!(
            launch::step(launch::Phase::Provisioning(provision::Phase::Complete), reply.clone()),
            Err(UnexpectedReply)
        );
    }
    assert_eq!(
        launch::step(launch::Phase::Provisioning(provision::Phase::DirProbe), Reply::LineRead),
        Err(UnexpectedReply)
    );
}
