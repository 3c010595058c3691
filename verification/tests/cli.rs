use shell_scene::cli::completion_instructions;
use shell_scene::cli::DEFAULT_COLS;
use shell_scene::cli::DEFAULT_FONT_SIZE;
use shell_scene::cli::DEFAULT_PORT;
use shell_scene::cli::DEFAULT_ROWS;
use shell_scene::cli::DEFAULT_SESSION;

#[test]
fn defaults_of_the_command_line() {
    assert_eq!(DEFAULT_SESSION, "cast");
    assert_eq!(DEFAULT_COLS, 80);
    assert_eq!(DEFAULT_ROWS, 24);
    assert_eq!(DEFAULT_PORT, 7681);
    assert_eq!(DEFAULT_FONT_SIZE, 24);
}

#[test]
fn completion_instructions_name_the_program() {
    assert_eq!(
        completion_instructions("shell-scene"),
        vec![
            "### Instructions to enable tab completion for shell-scene\n",
            "### Bash (~/.bashrc)\n  source <(shell-scene completions bash)\n",
            "### Fish (~/.config/fish/config.fish)\n  shell-scene completions fish | source\n",
            "### Zsh (~/.zshrc)\n  autoload -U compinit; compinit; source <(shell-scene \
             completions zsh)",
        ]
    );
}
