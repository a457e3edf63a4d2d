//! The Android runtime adapter for app-hosted deployments: describes the
//! capabilities the hosting platform grants a session.

use vstd::prelude::*;

verus! {

/// Platform settings for an app-hosted deployment.
pub struct AndroidRuntimeConfig {
    /// The app's private data directory, when the host supplies one.
    pub app_data_dir: Option<String>,
    /// Whether the host keeps a foreground service alive for long-running
    /// work.
    pub use_foreground_service: bool,
}

impl Default for AndroidRuntimeConfig {
    fn default() -> (c: AndroidRuntimeConfig)
        ensures
            c.app_data_dir is None,
            c.use_foreground_service == false,
    {
        AndroidRuntimeConfig { app_data_dir: None, use_foreground_service: false }
    }
}

/// Runtime adapter for app-hosted deployments.
pub struct AndroidRuntime {
    pub config: AndroidRuntimeConfig,
}

impl AndroidRuntime {
    pub fn new(config: AndroidRuntimeConfig) -> (r: AndroidRuntime)
        ensures
            r.config == config,
    {
        AndroidRuntime { config }
    }

    /// The storage location used when the host supplies none.
    pub fn default_storage_path() -> (r: String)
        ensures
            r@ == "/data/user/0/com.zeroclaw.app/files/zeroclaw"@,
    {
        String::from_str("/data/user/0/com.zeroclaw.app/files/zeroclaw")
    }

    pub fn name(&self) -> (r: &'static str)
        ensures
            r@ == "android"@,
    {
        "android"
    }

    /// The platform grants no shell.
    pub fn has_shell_access(&self) -> (r: bool)
        ensures
            r == false,
    {
        false
    }

    /// The platform grants the app's own files.
    pub fn has_filesystem_access(&self) -> (r: bool)
        ensures
            r == true,
    {
        true
    }

    /// Where the session stores its workspace: the host-supplied data
    /// directory, or the default location.
    pub fn storage_path(&self) -> (r: String)
        ensures
            self.config.app_data_dir matches Some(d) ==> r@ == d@,
            self.config.app_data_dir is None ==> r@
                == "/data/user/0/com.zeroclaw.app/files/zeroclaw"@,
    {
        match &self.config.app_data_dir {
            Some(d) => d.clone(),
            None => Self::default_storage_path(),
        }
    }

    /// Long-running work needs the host's foreground service.
    pub fn supports_long_running(&self) -> (r: bool)
        ensures
            r == self.config.use_foreground_service,
    {
        self.config.use_foreground_service
    }

    /// The platform cannot run shell commands; every request is refused
    /// with the same explanation.
    pub fn build_shell_command(&self, command: &str, workspace_dir: &str) -> (r: Result<
        (),
        String,
    >)
        ensures
            (r matches Err(e) && e@
                == "Android runtime does not support shell command execution. Use android_device tool actions instead."@),
    {
        let _ = command;
        let _ = workspace_dir;
        Err(
            String::from_str(
                "Android runtime does not support shell command execution. Use android_device tool actions instead.",
            ),
        )
    }
}

} // verus!
