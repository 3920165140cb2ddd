use vstd::prelude::*;

verus! {

/// The region used when neither the configuration nor the environment
/// names one.
pub open spec fn default_region() -> Seq<char> {
    "us-east-1"@
}

/// Connection settings for the hosted platform: profile, region, alias
/// and how often failed operations are retried.
pub struct RemoteConfig {
    /// Configuration profile to use for authorization.
    pub profile: Option<String>,
    /// Region to deploy to, if there is no default.
    pub region: Option<String>,
    /// Alias to associate the deployed function to.
    pub alias: Option<String>,
    /// How many attempts failed operations are given.
    pub retry_attempts: u32,
}

impl RemoteConfig {
    /// Resolves the region to use: the configured one wins, then the
    /// region the environment's provider chain found, then the fixed
    /// default.
    pub fn effective_region(&self, provider_region: Option<String>) -> (region: String)
        ensures
            region@ == match self.region {
                Some(r) => r@,
                None => match provider_region {
                    Some(p) => p@,
                    None => default_region(),
                },
            },
    {
        match &self.region {
            Some(r) => r.clone(),
            None => match provider_region {
                Some(p) => p,
                None => "us-east-1".to_owned(),
            },
        }
    }
}

/// Function-level deployment switches the scheduler core reads.
pub struct FunctionDeployConfig {
    /// Ask the platform to create a public URL for the function.
    pub enable_function_url: bool,
    /// Ask the platform to remove the function's public URL.
    pub disable_function_url: bool,
}

/// How the deployment outcome is rendered.
pub enum OutputFormat {
    /// Plain text.
    Text,
    /// Pretty-printed JSON.
    Json,
}

/// Configuration of one deployment: what to deploy, where to find it,
/// and how to talk to the hosted platform.
pub struct Deploy {
    /// Connection settings for the hosted platform.
    pub remote_config: RemoteConfig,
    /// Function-level deployment switches.
    pub function_config: FunctionDeployConfig,
    /// Directory where the built binaries are located.
    pub lambda_dir: Option<String>,
    /// Path to the project manifest.
    pub manifest_path: String,
    /// Name of the binary to deploy when it differs from the deploy
    /// name.
    pub binary_name: Option<String>,
    /// Bucket to upload the code to, when uploading indirectly.
    pub s3_bucket: Option<String>,
    /// Whether the artifact is an extension rather than a function.
    pub extension: bool,
    /// Format to render the outcome in.
    pub output_format: OutputFormat,
    /// Name to deploy under, when it differs from the root package's.
    pub name: Option<String>,
}

impl Deploy {
    /// The two function-URL switches contradict each other; a
    /// deployment configured with both is rejected before any work is
    /// done.
    pub fn conflicting_url_flags(&self) -> (r: bool)
        ensures
            r == (self.function_config.enable_function_url
                && self.function_config.disable_function_url),
    {
        self.function_config.enable_function_url && self.function_config.disable_function_url
    }

    /// The name the artifact is deployed under: the explicitly
    /// configured one, or the root package's name.
    pub fn deploy_name(&self, root_package_name: &str) -> (name: String)
        ensures
            name@ == match self.name {
                Some(n) => n@,
                None => root_package_name@,
            },
    {
        match &self.name {
            Some(n) => n.clone(),
            None => root_package_name.to_owned(),
        }
    }

    /// The binary to look for in the build output: the explicitly
    /// configured one, or the deploy name itself.
    pub fn binary_to_deploy(&self, deploy_name: &str) -> (binary: String)
        ensures
            binary@ == match self.binary_name {
                Some(b) => b@,
                None => deploy_name@,
            },
    {
        match &self.binary_name {
            Some(b) => b.clone(),
            None => deploy_name.to_owned(),
        }
    }
}

} // verus!
