//! Typed configuration: the ordered route table, the plugin references of
//! each route and the logging options.
use vstd::prelude::*;

verus! {

/// Mathematical model of a plugin reference.
pub ghost struct PluginSpec {
    pub name: Seq<char>,
    pub parameters: Seq<char>,
}

/// Mathematical model of a route rule.
pub ghost struct RuleSpec {
    pub pattern: Seq<char>,
    pub address: Seq<char>,
    pub prefix: Seq<char>,
    pub plugins: Seq<PluginSpec>,
}

/// Mathematical model of the logging options.
pub ghost struct LoggingSpec {
    pub log_path: Seq<char>,
    pub log_level: Seq<char>,
    pub log_to_std_out: Seq<char>,
    pub log_file_size_in_bytes: Seq<char>,
    pub log_response_header_and_body: Seq<char>,
    pub log_request_header_and_body: Seq<char>,
}

/// Mathematical model of the whole configuration.
pub ghost struct SettingsSpec {
    pub listening_address: Seq<char>,
    pub services: Seq<RuleSpec>,
    pub logging: LoggingSpec,
}

/// The models of a list of plugin references, in the same order.
pub open spec fn plugin_views(plugins: Seq<RequestPlugins>) -> Seq<PluginSpec> {
    plugins.map_values(|p: RequestPlugins| p@)
}

/// The models of a route table, in declaration order.
pub open spec fn rule_views(rules: Seq<SvcDetails>) -> Seq<RuleSpec> {
    rules.map_values(|r: SvcDetails| r@)
}

/// Names an external request-transformation unit. The parameters are carried
/// along and never interpreted by the engine.
#[derive(Debug, Clone)]
pub struct RequestPlugins {
    name: String,
    parameters: String,
}

impl View for RequestPlugins {
    type V = PluginSpec;

    closed spec fn view(&self) -> PluginSpec {
        PluginSpec { name: self.name@, parameters: self.parameters@ }
    }
}

impl RequestPlugins {
    pub fn new(name: String, parameters: String) -> (r: Self)
        ensures
            r@ == (PluginSpec { name: name@, parameters: parameters@ }),
    {
        RequestPlugins { name, parameters }
    }

    pub fn get_name(self) -> (r: String)
        ensures
            r@ == self@.name,
    {
        self.name
    }

    pub fn get_parameters(self) -> (r: String)
        ensures
            r@ == self@.parameters,
    {
        self.parameters
    }

    /// The identifier, borrowed.
    pub fn name(&self) -> (r: &str)
        ensures
            r@ == self@.name,
    {
        self.name.as_str()
    }

    /// A second reference with the same model.
    pub fn duplicate(&self) -> (r: Self)
        ensures
            r@ == self@,
    {
        RequestPlugins { name: self.name.clone(), parameters: self.parameters.clone() }
    }
}

/// Copies a list of plugin references, keeping order and content.
pub fn duplicate_plugins(plugins: &Vec<RequestPlugins>) -> (r: Vec<RequestPlugins>)
    ensures
        plugin_views(r@) == plugin_views(plugins@),
{
    let mut out: Vec<RequestPlugins> = Vec::new();
    let mut i: usize = 0;
    while i < plugins.len()
        invariant
            i <= plugins.len(),
            out@.len() == i,
            forall|k: int| 0 <= k < i ==> (#[trigger] out@[k])@ == plugins@[k]@,
        decreases plugins.len() - i,
    {
        out.push(plugins[i].duplicate());
        i += 1;
    }
    assert(plugin_views(out@) =~= plugin_views(plugins@));
    out
}

/// One route rule: a pattern over the request URI, the backend that serves
/// matching requests, the literal prefix removed before forwarding and the
/// ordered plugins applied to the request.
#[derive(Debug, Clone)]
pub struct SvcDetails {
    url_matching_expression: String,
    service_address: String,
    request_plugins: Vec<RequestPlugins>,
    backend_prefix_removal: String,
}

impl View for SvcDetails {
    type V = RuleSpec;

    closed spec fn view(&self) -> RuleSpec {
        RuleSpec {
            pattern: self.url_matching_expression@,
            address: self.service_address@,
            prefix: self.backend_prefix_removal@,
            plugins: plugin_views(self.request_plugins@),
        }
    }
}

impl SvcDetails {
    pub fn new(
        url_matching_expression: String,
        service_address: String,
        request_plugins: Vec<RequestPlugins>,
        backend_prefix_removal: String,
    ) -> (r: Self)
        ensures
            r@ == (RuleSpec {
                pattern: url_matching_expression@,
                address: service_address@,
                prefix: backend_prefix_removal@,
                plugins: plugin_views(request_plugins@),
            }),
    {
        SvcDetails {
            url_matching_expression,
            service_address,
            request_plugins,
            backend_prefix_removal,
        }
    }

    pub fn get_url_matching_expression(self) -> (r: String)
        ensures
            r@ == self@.pattern,
    {
        self.url_matching_expression
    }

    pub fn get_service_address(self) -> (r: String)
        ensures
            r@ == self@.address,
    {
        self.service_address
    }

    pub fn get_request_plugins(self) -> (r: Vec<RequestPlugins>)
        ensures
            plugin_views(r@) == self@.plugins,
    {
        self.request_plugins
    }

    pub fn get_backend_prefix_removal(self) -> (r: String)
        ensures
            r@ == self@.prefix,
    {
        self.backend_prefix_removal
    }

    /// The pattern, borrowed.
    pub fn url_matching_expression(&self) -> (r: &str)
        ensures
            r@ == self@.pattern,
    {
        self.url_matching_expression.as_str()
    }

    /// The backend base address, borrowed.
    pub fn service_address(&self) -> (r: &str)
        ensures
            r@ == self@.address,
    {
        self.service_address.as_str()
    }

    /// The prefix to remove, borrowed.
    pub fn backend_prefix_removal(&self) -> (r: &str)
        ensures
            r@ == self@.prefix,
    {
        self.backend_prefix_removal.as_str()
    }

    /// The plugin references as the rule holds them.
    pub closed spec fn plugin_list(&self) -> Seq<RequestPlugins> {
        self.request_plugins@
    }

    /// The plugin references, borrowed.
    pub fn request_plugins(&self) -> (r: &Vec<RequestPlugins>)
        ensures
            r@ == self.plugin_list(),
            plugin_views(r@) == self@.plugins,
    {
        &self.request_plugins
    }
}

/// Options of the diagnostics sink, kept as the text the configuration gave.
#[derive(Debug, Clone)]
pub struct LoggingDetails {
    log_path: String,
    log_level: String,
    log_to_std_out: String,
    log_file_size_in_bytes: String,
    log_response_header_and_body: String,
    log_request_header_and_body: String,
}

impl View for LoggingDetails {
    type V = LoggingSpec;

    closed spec fn view(&self) -> LoggingSpec {
        LoggingSpec {
            log_path: self.log_path@,
            log_level: self.log_level@,
            log_to_std_out: self.log_to_std_out@,
            log_file_size_in_bytes: self.log_file_size_in_bytes@,
            log_response_header_and_body: self.log_response_header_and_body@,
            log_request_header_and_body: self.log_request_header_and_body@,
        }
    }
}

impl LoggingDetails {
    pub fn new(
        log_path: String,
        log_level: String,
        log_to_std_out: String,
        log_file_size_in_bytes: String,
        log_response_header_and_body: String,
        log_request_header_and_body: String,
    ) -> (r: Self)
        ensures
            r@ == (LoggingSpec {
                log_path: log_path@,
                log_level: log_level@,
                log_to_std_out: log_to_std_out@,
                log_file_size_in_bytes: log_file_size_in_bytes@,
                log_response_header_and_body: log_response_header_and_body@,
                log_request_header_and_body: log_request_header_and_body@,
            }),
    {
        LoggingDetails {
            log_path,
            log_level,
            log_to_std_out,
            log_file_size_in_bytes,
            log_response_header_and_body,
            log_request_header_and_body,
        }
    }

    pub fn get_log_path(self) -> (r: String)
        ensures
            r@ == self@.log_path,
    {
        self.log_path
    }

    pub fn get_log_level(self) -> (r: String)
        ensures
            r@ == self@.log_level,
    {
        self.log_level
    }

    pub fn get_std_out(self) -> (r: String)
        ensures
            r@ == self@.log_to_std_out,
    {
        self.log_to_std_out
    }

    pub fn get_log_file_size_in_bytes(self) -> (r: String)
        ensures
            r@ == self@.log_file_size_in_bytes,
    {
        self.log_file_size_in_bytes
    }

    pub fn get_log_request_header_and_body(self) -> (r: String)
        ensures
            r@ == self@.log_request_header_and_body,
    {
        self.log_request_header_and_body
    }

    pub fn get_log_response_header_and_body(self) -> (r: String)
        ensures
            r@ == self@.log_response_header_and_body,
    {
        self.log_response_header_and_body
    }
}

/// The configuration snapshot: read once at startup, read-only afterwards.
#[derive(Debug, Clone)]
pub struct Settings {
    listening_address: String,
    services: Vec<SvcDetails>,
    logging: LoggingDetails,
}

impl View for Settings {
    type V = SettingsSpec;

    closed spec fn view(&self) -> SettingsSpec {
        SettingsSpec {
            listening_address: self.listening_address@,
            services: rule_views(self.services@),
            logging: self.logging@,
        }
    }
}

impl Settings {
    /// Builds the snapshot from values that were already read and typed.
    pub fn from_parts(
        listening_address: String,
        services: Vec<SvcDetails>,
        logging: LoggingDetails,
    ) -> (r: Self)
        ensures
            r@ == (SettingsSpec {
                listening_address: listening_address@,
                services: rule_views(services@),
                logging: logging@,
            }),
    {
        Settings { listening_address, services, logging }
    }

    pub fn get_service_mapping(self) -> (r: Vec<SvcDetails>)
        ensures
            rule_views(r@) == self@.services,
    {
        self.services
    }

    pub fn get_listening_address(self) -> (r: String)
        ensures
            r@ == self@.listening_address,
    {
        self.listening_address
    }

    pub fn get_logging(self) -> (r: LoggingDetails)
        ensures
            r@ == self@.logging,
    {
        self.logging
    }

    /// The route table, borrowed, in declaration order.
    pub fn service_mapping(&self) -> (r: &Vec<SvcDetails>)
        ensures
            rule_views(r@) == self@.services,
    {
        &self.services
    }
}

} // verus!
