use vstd::prelude::*;

use crate::transport::TransportConfig;

verus! {

/// The mail section of the agent's configuration. A port or timeout of 0
/// means that none was configured.
pub struct MailConfig {
    pub smtp_host: String,
    pub smtp_port: u16,
    pub smtp_username: String,
    pub smtp_password: String,
    pub smtp_timeout: u64,
    pub smtp_send_to: Vec<String>,
}

/// The schedule on which notifications are sent.
pub struct SchedulerConfig {
    pub cron: String,
    pub timezone: String,
}

impl MailConfig {
    /// The transport settings of this configuration: the same host and
    /// credentials, with a port or timeout of 0 read as absent.
    pub fn transport_config(&self) -> (r: TransportConfig)
        ensures
            r.host@ == self.smtp_host@,
            r.username@ == self.smtp_username@,
            r.password@ == self.smtp_password@,
            r.port == (if self.smtp_port == 0 {
                None
            } else {
                Some(self.smtp_port)
            }),
            r.connect_timeout_secs == (if self.smtp_timeout == 0 {
                None
            } else {
                Some(self.smtp_timeout)
            }),
    {
        TransportConfig {
            host: self.smtp_host.clone(),
            port: if self.smtp_port == 0 {
                None
            } else {
                Some(self.smtp_port)
            },
            username: self.smtp_username.clone(),
            password: self.smtp_password.clone(),
            connect_timeout_secs: if self.smtp_timeout == 0 {
                None
            } else {
                Some(self.smtp_timeout)
            },
        }
    }
}

} // verus!
