//! The fixed names that the launcher works with.

use vstd::prelude::*;
use vstd::string::*;

verus! {

/// File name of the companion executable, looked up in the working directory.
pub const EXECUTABLE: &'static str = "ZabbixManager-Console.exe";

/// Name of the configuration directory, relative to the working directory.
pub const CONFIG_DIR: &'static str = "config";

/// Name of the configuration file inside the configuration directory.
pub const CONFIG_FILE_NAME: &'static str = "config.json";

/// What a freshly made configuration file holds: an empty list of servers.
pub const DEFAULT_CONFIG: &'static str = "{\n  \"servidores\": []\n}";

/// The path of the configuration file: the directory, a slash, the file name.
pub open spec fn config_file_path_text() -> Seq<char> {
    CONFIG_DIR@ + "/"@ + CONFIG_FILE_NAME@
}

/// Builds the path of the configuration file.
pub fn config_file_path() -> (path: String)
    ensures
        path@ == config_file_path_text(),
{
    String::from_str(CONFIG_DIR).concat("/").concat(CONFIG_FILE_NAME)
}

/// The bytes of the default configuration: its text in UTF-8.
pub open spec fn default_config_bytes() -> Seq<u8> {
    DEFAULT_CONFIG.spec_bytes()
}

/// The default configuration as the bytes to write into a new file.
pub fn default_config() -> (bytes: Vec<u8>)
    ensures
        bytes@ == default_config_bytes(),
{
    DEFAULT_CONFIG.as_bytes_vec()
}

/// The path of the configuration file, written out.
pub proof fn config_file_path_is_literal()
    ensures
        config_file_path_text() == "config/config.json"@,
{
    reveal_strlit("config");
    reveal_strlit("/");
    reveal_strlit("config.json");
    reveal_strlit("config/config.json");
    assert(config_file_path_text() =~= "config/config.json"@);
}

/// The default configuration, byte for byte: an opening brace, a line
/// break, the key `servidores` indented by two spaces with an empty list
/// as its value, a line break and the closing brace, with no line break
/// after it.
pub proof fn default_config_is_literal()
    ensures
        default_config_bytes() == seq![
            0x7bu8, 0x0a, 0x20, 0x20, 0x22, 0x73, 0x65, 0x72, 0x76, 0x69, 0x64,
            0x6f, 0x72, 0x65, 0x73, 0x22, 0x3a, 0x20, 0x5b, 0x5d, 0x0a, 0x7d,
        ],
{
    reveal_strlit("{\n  \"servidores\": []\n}");
    is_ascii_spec_bytes(DEFAULT_CONFIG);
    assert(is_ascii(DEFAULT_CONFIG));
    assert(default_config_bytes() =~= seq![
        0x7bu8, 0x0a, 0x20, 0x20, 0x22, 0x73, 0x65, 0x72, 0x76, 0x69, 0x64,
        0x6f, 0x72, 0x65, 0x73, 0x22, 0x3a, 0x20, 0x5b, 0x5d, 0x0a, 0x7d,
    ]);
}

} // verus!
