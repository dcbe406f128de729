//! The settings that the worker is started with.

use crate::grammar::LogFormat;
use crate::strings::{optional_text, same_text};
use vstd::prelude::*;
use vstd::string::*;

verus! {

/// The settings of a worker, fixed once it runs.
#[derive(Debug, PartialEq, Eq)]
pub struct WorkerConfig {
    pub broker_url: String,
    pub queue_name: String,
    pub metrics_host: String,
    pub database: String,
    pub log_format: LogFormat,
}

/// The mathematical value of a [`WorkerConfig`].
pub struct ConfigModel {
    pub broker_url: Seq<char>,
    pub queue_name: Seq<char>,
    pub metrics_host: Seq<char>,
    pub database: Seq<char>,
    pub log_format: LogFormat,
}

impl View for WorkerConfig {
    type V = ConfigModel;

    open spec fn view(&self) -> ConfigModel {
        ConfigModel {
            broker_url: self.broker_url@,
            queue_name: self.queue_name@,
            metrics_host: self.metrics_host@,
            database: self.database@,
            log_format: self.log_format,
        }
    }
}

/// A setting without which the worker cannot start.
#[derive(Clone, Copy, Debug, PartialEq, Eq)]
pub enum ConfigError {
    /// The host of the message broker is not set.
    MissingBrokerHost,
    /// The host of the metrics store is not set.
    MissingMetricsHost,
    /// The log format is set to something other than `json` or `text`.
    UnknownLogFormat,
}

/// The log format that a setting stands for: `json`, `text`, or, where
/// nothing is set, the format that is judged file by file.
pub open spec fn log_format_of(setting: Option<Seq<char>>) -> Result<LogFormat, ConfigError> {
    match setting {
        None => Ok(LogFormat::Auto),
        Some(value) => if value == "json"@ {
            Ok(LogFormat::Json)
        } else if value == "text"@ {
            Ok(LogFormat::Text)
        } else {
            Err(ConfigError::UnknownLogFormat)
        },
    }
}

/// The address of the broker on a host.
pub open spec fn broker_url_of(host: Seq<char>) -> Seq<char> {
    "amqp://"@ + host + "//"@
}

/// The address to which payloads for a database are posted on a host.
pub open spec fn write_url_of(host: Seq<char>, database: Seq<char>) -> Seq<char> {
    "http://"@ + host + ":8086/write?db="@ + database
}

/// The settings that the three values give: both hosts must be set.
pub open spec fn settings_of(
    broker_host: Option<Seq<char>>,
    metrics_host: Option<Seq<char>>,
    log_format: Option<Seq<char>>,
) -> Result<ConfigModel, ConfigError> {
    match metrics_host {
        None => Err(ConfigError::MissingMetricsHost),
        Some(metrics) => match broker_host {
            None => Err(ConfigError::MissingBrokerHost),
            Some(broker) => match log_format_of(log_format) {
                Err(e) => Err(e),
                Ok(format) => Ok(
                    ConfigModel {
                        broker_url: broker_url_of(broker),
                        queue_name: "processor"@,
                        metrics_host: metrics,
                        database: "data_stats"@,
                        log_format: format,
                    },
                ),
            },
        },
    }
}

/// Reads the log format from its setting.
pub fn log_format_from(setting: Option<&str>) -> (r: Result<LogFormat, ConfigError>)
    ensures
        r == log_format_of(
            match setting {
                Some(s) => Some(s@),
                None => None,
            },
        ),
{
    match setting {
        None => Ok(LogFormat::Auto),
        Some(value) => {
            if same_text(value, "json") {
                Ok(LogFormat::Json)
            } else if same_text(value, "text") {
                Ok(LogFormat::Text)
            } else {
                Err(ConfigError::UnknownLogFormat)
            }
        },
    }
}

/// The view of settings or of the error in them.
pub open spec fn settings_view(r: Result<WorkerConfig, ConfigError>) -> Result<
    ConfigModel,
    ConfigError,
> {
    match r {
        Ok(config) => Ok(config@),
        Err(e) => Err(e),
    }
}

impl WorkerConfig {
    /// The settings of a worker from the values of its surroundings: the
    /// queue is `processor` and the database `data_stats`.
    pub fn from_settings(
        broker_host: Option<String>,
        metrics_host: Option<String>,
        log_format: Option<String>,
    ) -> (r: Result<WorkerConfig, ConfigError>)
        ensures
            settings_view(r) == settings_of(
                optional_text(broker_host),
                optional_text(metrics_host),
                optional_text(log_format),
            ),
    {
        let metrics = match metrics_host {
            None => {
                return Err(ConfigError::MissingMetricsHost);
            },
            Some(host) => host,
        };
        let broker = match broker_host {
            None => {
                return Err(ConfigError::MissingBrokerHost);
            },
            Some(host) => host,
        };
        let format = match log_format {
            None => log_format_from(None),
            Some(value) => log_format_from(Some(value.as_str())),
        };
        let format = match format {
            Err(e) => {
                return Err(e);
            },
            Ok(format) => format,
        };
        let mut broker_url = String::from_str("amqp://");
        broker_url.append(broker.as_str());
        broker_url.append("//");
        assert(broker_url@ =~= broker_url_of(broker@));
        Ok(
            WorkerConfig {
                broker_url,
                queue_name: String::from_str("processor"),
                metrics_host: metrics,
                database: String::from_str("data_stats"),
                log_format: format,
            },
        )
    }

    /// The address to which payloads are posted.
    pub fn write_url(&self) -> (url: String)
        ensures
            url@ == write_url_of(self.metrics_host@, self.database@),
    {
        let mut url = String::from_str("http://");
        url.append(self.metrics_host.as_str());
        url.append(":8086/write?db=");
        url.append(self.database.as_str());
        assert(url@ =~= write_url_of(self.metrics_host@, self.database@));
        url
    }
}

} // verus!
