use launcher::names::{
    config_file_path, default_config, CONFIG_DIR, CONFIG_FILE_NAME, DEFAULT_CONFIG, EXECUTABLE,
};
use launcher::text::{
    banner, dir_created, dir_failed, file_created, file_failed, guidance, missing_executable,
    pause_prompt, start_failed, started, starting, BANNER, GUIDANCE, PAUSE_PROMPT, STARTED,
};

#[test]
fn fixed_names() {
    assert_eq!(EXECUTABLE, "ZabbixManager-Console.exe");
    assert_eq!(CONFIG_DIR, "config");
    assert_eq!(CONFIG_FILE_NAME, "config.json");
}

#[test]
fn config_file_path_joins_dir_and_name() {
    assert_eq!(config_file_path(), "config/config.json");
    assert_eq!(config_file_path(), format!("{}/{}", CONFIG_DIR, CONFIG_FILE_NAME));
}

#[test]
fn default_config_is_the_three_line_document() {
    let expected = "{\n  \"servidores\": []\n}";
    assert_eq!(DEFAULT_CONFIG, expected);
    assert_eq!(default_config(), expected.as_bytes().to_vec());
}

#[test]
fn default_config_byte_for_byte() {
    let bytes: Vec<u8> = vec![
        0x7b, 0x0a, 0x20, 0x20, 0x22, 0x73, 0x65, 0x72, 0x76, 0x69, 0x64, 0x6f, 0x72, 0x65, 0x73,
        0x22, 0x3a, 0x20, 0x5b, 0x5d, 0x0a, 0x7d,
    ];
    assert_eq!(default_config(), bytes);
    assert_eq!(default_config().len(), 22);
}

#[test]
fn default_config_has_no_trailing_line_break() {
    let bytes = default_config();
    assert_eq!(bytes.first(), Some(&b'{'));
    assert_eq!(bytes.last(), Some(&b'}'));
    assert_eq!(bytes.iter().filter(|b| **b == b'\n').count(), 2);
}

#[test]
fn fixed_lines() {
    assert_eq!(banner(), "=== Zabbix Manager Launcher ===");
    assert_eq!(
        guidance(),
        "Verifique se o executável está na mesma pasta deste launcher."
    );
    assert_eq!(pause_prompt(), "Pressione ENTER para continuar...");
    assert_eq!(started(), "Aplicativo iniciado com sucesso!");
}

#[test]
fn fixed_lines_match_their_constants() {
    assert_eq!(banner(), BANNER);
    assert_eq!(guidance(), GUIDANCE);
    assert_eq!(pause_prompt(), PAUSE_PROMPT);
    assert_eq!(started(), STARTED);
}

#[test]
fn missing_executable_names_the_file() {
    assert_eq!(
        missing_executable("ZabbixManager-Console.exe"),
        "Erro: ZabbixManager-Console.exe não encontrado!"
    );
    assert_eq!(missing_executable(""), "Erro:  não encontrado!");
}

#[test]
fn starting_names_the_file() {
    assert_eq!(
        starting("ZabbixManager-Console.exe"),
        "Iniciando ZabbixManager-Console.exe..."
    );
}

#[test]
fn start_failed_carries_the_error() {
    assert_eq!(
        start_failed("Permission denied (os error 13)"),
        "Erro ao iniciar o aplicativo: Permission denied (os error 13)"
    );
    assert_eq!(start_failed(""), "Erro ao iniciar o aplicativo: ");
}

#[test]
fn dir_lines() {
    assert_eq!(
        dir_created("config"),
        "Diretório de configuração 'config' criado."
    );
    assert_eq!(
        dir_failed("File exists (os error 17)"),
        "Erro ao criar diretório de configuração: File exists (os error 17)"
    );
}

#[test]
fn file_lines() {
    assert_eq!(
        file_created("config/config.json"),
        "Arquivo de configuração inicial 'config/config.json' criado."
    );
    assert_eq!(
        file_failed("Not a directory (os error 20)"),
        "Erro ao criar arquivo de configuração: Not a directory (os error 20)"
    );
}

#[test]
fn lines_keep_text_beyond_ascii() {
    assert_eq!(start_failed("não é possível"), "Erro ao iniciar o aplicativo: não é possível");
    assert_eq!(dir_created("configuração"), "Diretório de configuração 'configuração' criado.");
}
