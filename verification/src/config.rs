use vstd::prelude::*;

verus! {

/// Settings governing workspace creation.
#[derive(Debug, Clone)]
pub struct WorkspaceSettings {
    pub base_dir: String,
    pub branch_prefix: String,
    pub copy_files: Vec<String>,
    pub pre_commands: Vec<String>,
}

/// Top-level configuration: one `workspace` section.
#[derive(Debug, Clone)]
pub struct WorkspaceConfig {
    pub workspace: WorkspaceSettings,
}

/// The fallback settings used when no configuration file can be read.
pub open spec fn is_default_config(c: WorkspaceConfig) -> bool {
    &&& c.workspace.base_dir@ == "../workspaces"@
    &&& c.workspace.branch_prefix@ == "work/"@
    &&& c.workspace.copy_files@.len() == 0
    &&& c.workspace.pre_commands@.len() == 0
}

impl Default for WorkspaceConfig {
    fn default() -> (c: Self)
        ensures
            is_default_config(c),
    {
        WorkspaceConfig {
            workspace: WorkspaceSettings {
                base_dir: "../workspaces".to_owned(),
                branch_prefix: "work/".to_owned(),
                copy_files: Vec::new(),
                pre_commands: Vec::new(),
            },
        }
    }
}

/// The settings a load resolves to: what was parsed, or the defaults when
/// the file was missing, unreadable or malformed.
pub fn resolve_config(parsed: Option<WorkspaceConfig>) -> (c: WorkspaceConfig)
    ensures
        parsed matches Some(p) ==> c == p,
        parsed is None ==> is_default_config(c),
{
    match parsed {
        Some(p) => p,
        None => WorkspaceConfig::default(),
    }
}

/// The body of a generated configuration template, with commented examples.
pub open spec fn template_text() -> Seq<char> {
    "# Gitws Configuration Template\n# Workspace management settings for git worktree automation\n\nworkspace:\n  # Base directory for creating workspaces (relative to current directory)\n  base_dir: \"../workspaces\"\n  \n  # Branch name prefix for new branches\n  branch_prefix: \"work/\"\n  \n  # Files to copy from main workspace to new workspace\n  copy_files:\n    - \".env\"\n    - \".env.local\"\n    # - \"config/database.yml\"\n    # - \"docker-compose.override.yml\"\n  \n  # Commands to execute after workspace creation\n  pre_commands:\n    - \"npm install\"\n    # - \"cargo build\"\n    # - \"bundle install\"\n    # - \"docker-compose up -d\"\n"@
}

/// Create template configuration content with comments.
pub fn create_template_content() -> (r: String)
    ensures
        r@ == template_text(),
{
    "# Gitws Configuration Template\n# Workspace management settings for git worktree automation\n\nworkspace:\n  # Base directory for creating workspaces (relative to current directory)\n  base_dir: \"../workspaces\"\n  \n  # Branch name prefix for new branches\n  branch_prefix: \"work/\"\n  \n  # Files to copy from main workspace to new workspace\n  copy_files:\n    - \".env\"\n    - \".env.local\"\n    # - \"config/database.yml\"\n    # - \"docker-compose.override.yml\"\n  \n  # Commands to execute after workspace creation\n  pre_commands:\n    - \"npm install\"\n    # - \"cargo build\"\n    # - \"bundle install\"\n    # - \"docker-compose up -d\"\n".to_owned()
}

} // verus!
