//! The lines that the launcher writes to the console.
//!
//! Each line is given twice: as a specification over sequences of
//! characters, and as the function that builds it. A line never ends with a
//! line break; whoever prints it adds one.

use vstd::prelude::*;
use vstd::string::*;

verus! {

/// The heading printed before anything else happens.
pub const BANNER: &'static str = "=== Zabbix Manager Launcher ===";

/// The advice that follows the report of a missing executable.
pub const GUIDANCE: &'static str =
    "Verifique se o executável está na mesma pasta deste launcher.";

/// The prompt of the pause that keeps a console window open.
pub const PAUSE_PROMPT: &'static str = "Pressione ENTER para continuar...";

/// The report of a companion that has been started.
pub const STARTED: &'static str = "Aplicativo iniciado com sucesso!";

/// The report that the executable `name` is not there.
pub open spec fn missing_executable_text(name: Seq<char>) -> Seq<char> {
    "Erro: "@ + name + " não encontrado!"@
}

/// The announcement that `name` is about to be started.
pub open spec fn starting_text(name: Seq<char>) -> Seq<char> {
    "Iniciando "@ + name + "..."@
}

/// The report that starting the companion failed with `error`.
pub open spec fn start_failed_text(error: Seq<char>) -> Seq<char> {
    "Erro ao iniciar o aplicativo: "@ + error
}

/// The report that the configuration directory `dir` has been made.
pub open spec fn dir_created_text(dir: Seq<char>) -> Seq<char> {
    "Diretório de configuração '"@ + dir + "' criado."@
}

/// The report that making the configuration directory failed with `error`.
pub open spec fn dir_failed_text(error: Seq<char>) -> Seq<char> {
    "Erro ao criar diretório de configuração: "@ + error
}

/// The report that the configuration file `path` has been written.
pub open spec fn file_created_text(path: Seq<char>) -> Seq<char> {
    "Arquivo de configuração inicial '"@ + path + "' criado."@
}

/// The report that writing the configuration file failed with `error`.
pub open spec fn file_failed_text(error: Seq<char>) -> Seq<char> {
    "Erro ao criar arquivo de configuração: "@ + error
}

/// The heading, as an owned line.
pub fn banner() -> (line: String)
    ensures
        line@ == BANNER@,
{
    String::from_str(BANNER)
}

/// The advice on where the executable belongs, as an owned line.
pub fn guidance() -> (line: String)
    ensures
        line@ == GUIDANCE@,
{
    String::from_str(GUIDANCE)
}

/// The prompt of the pause, as an owned line.
pub fn pause_prompt() -> (line: String)
    ensures
        line@ == PAUSE_PROMPT@,
{
    String::from_str(PAUSE_PROMPT)
}

/// The report of a started companion, as an owned line.
pub fn started() -> (line: String)
    ensures
        line@ == STARTED@,
{
    String::from_str(STARTED)
}

/// Builds the report that the executable `name` is not there.
pub fn missing_executable(name: &str) -> (line: String)
    ensures
        line@ == missing_executable_text(name@),
{
    String::from_str("Erro: ").concat(name).concat(" não encontrado!")
}

/// Builds the announcement that `name` is about to be started.
pub fn starting(name: &str) -> (line: String)
    ensures
        line@ == starting_text(name@),
{
    String::from_str("Iniciando ").concat(name).concat("...")
}

/// Builds the report that starting the companion failed with `error`.
pub fn start_failed(error: &str) -> (line: String)
    ensures
        line@ == start_failed_text(error@),
{
    String::from_str("Erro ao iniciar o aplicativo: ").concat(error)
}

/// Builds the report that the configuration directory `dir` has been made.
pub fn dir_created(dir: &str) -> (line: String)
    ensures
        line@ == dir_created_text(dir@),
{
    String::from_str("Diretório de configuração '").concat(dir).concat("' criado.")
}

/// Builds the report that making the configuration directory failed.
pub fn dir_failed(error: &str) -> (line: String)
    ensures
        line@ == dir_failed_text(error@),
{
    String::from_str("Erro ao criar diretório de configuração: ").concat(error)
}

/// Builds the report that the configuration file `path` has been written.
pub fn file_created(path: &str) -> (line: String)
    ensures
        line@ == file_created_text(path@),
{
    String::from_str("Arquivo de configuração inicial '").concat(path).concat("' criado.")
}

/// Builds the report that writing the configuration file failed.
pub fn file_failed(error: &str) -> (line: String)
    ensures
        line@ == file_failed_text(error@),
{
    String::from_str("Erro ao criar arquivo de configuração: ").concat(error)
}

} // verus!
