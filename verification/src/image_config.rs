//! Image references and registry settings, resolved from the environment.
use vstd::prelude::*;
use crate::env_snapshot::{opt_str_view, opt_view, EnvSnapshot, EnvSnapshotView};
use crate::error::{CompanyCiError, ErrorView};

verus! {

/// The default registry contracts.
#[derive(Debug, Clone, Copy, PartialEq, Eq, Structural)]
pub enum ImageProfile {
    Local,
    OpenshiftLocal,
}

/// The application images the tool builds.
#[derive(Debug, Clone, Copy, PartialEq, Eq, Structural)]
pub enum ApplicationImage {
    NextWeb,
    SpringApi,
}

/// The repository name of an application image.
pub open spec fn image_name(app: ApplicationImage) -> Seq<char> {
    match app {
        ApplicationImage::NextWeb => "next-web"@,
        ApplicationImage::SpringApi => "spring-api"@,
    }
}

/// The variable that overrides an application's full image reference.
pub open spec fn image_override_env(app: ApplicationImage) -> Seq<char> {
    match app {
        ApplicationImage::NextWeb => "NEXT_WEB_IMAGE_REF"@,
        ApplicationImage::SpringApi => "SPRING_API_IMAGE_REF"@,
    }
}

impl ApplicationImage {
    /// The repository name of the image.
    pub fn name(self) -> (r: &'static str)
        ensures
            r@ == image_name(self),
    {
        match self {
            ApplicationImage::NextWeb => "next-web",
            ApplicationImage::SpringApi => "spring-api",
        }
    }

    /// The variable that overrides the image's full reference.
    pub fn override_env(self) -> (r: &'static str)
        ensures
            r@ == image_override_env(self),
    {
        match self {
            ApplicationImage::NextWeb => "NEXT_WEB_IMAGE_REF",
            ApplicationImage::SpringApi => "SPRING_API_IMAGE_REF",
        }
    }
}

} // verus!

verus! {

/// The registry contract a profile falls back on.
pub struct ImageDefaultsView {
    pub push_registry: Seq<char>,
    pub pull_registry: Seq<char>,
    pub namespace: Seq<char>,
    pub tag: Seq<char>,
    pub registry_username: Option<Seq<char>>,
    pub registry_password_file: Option<Seq<char>>,
}

/// The defaults of each profile.
pub open spec fn profile_defaults(profile: ImageProfile) -> ImageDefaultsView {
    match profile {
        ImageProfile::Local => ImageDefaultsView {
            push_registry: "localhost:5001"@,
            pull_registry: "localhost:5001"@,
            namespace: ""@,
            tag: "dev"@,
            registry_username: None,
            registry_password_file: None,
        },
        ImageProfile::OpenshiftLocal => ImageDefaultsView {
            push_registry: "localhost:5002"@,
            pull_registry: "host.crc.testing:5002"@,
            namespace: "company-ci"@,
            tag: "dev"@,
            registry_username: Some("admin"@),
            registry_password_file: Some("testbeds/repository/.runtime/admin.password"@),
        },
    }
}

struct ImageDefaults {
    push_registry: &'static str,
    pull_registry: &'static str,
    namespace: &'static str,
    tag: &'static str,
    registry_username: Option<&'static str>,
    registry_password_file: Option<&'static str>,
}

impl ImageProfile {
    fn defaults(self) -> (r: ImageDefaults)
        ensures
            r.push_registry@ == profile_defaults(self).push_registry,
            r.pull_registry@ == profile_defaults(self).pull_registry,
            r.namespace@ == profile_defaults(self).namespace,
            r.tag@ == profile_defaults(self).tag,
            opt_str_view(r.registry_username) == profile_defaults(self).registry_username,
            opt_str_view(r.registry_password_file) == profile_defaults(self).registry_password_file,
    {
        match self {
            ImageProfile::Local => ImageDefaults {
                push_registry: "localhost:5001",
                pull_registry: "localhost:5001",
                namespace: "",
                tag: "dev",
                registry_username: None,
                registry_password_file: None,
            },
            ImageProfile::OpenshiftLocal => ImageDefaults {
                push_registry: "localhost:5002",
                pull_registry: "host.crc.testing:5002",
                namespace: "company-ci",
                tag: "dev",
                registry_username: Some("admin"),
                registry_password_file: Some("testbeds/repository/.runtime/admin.password"),
            },
        }
    }
}

/// Where images are pushed and pulled, under which name and tag, and with
/// which registry credentials.
#[derive(Debug, Clone, PartialEq, Eq)]
pub struct ImageSettings {
    push_registry: String,
    pull_registry: String,
    namespace: String,
    tag: String,
    registry_username: Option<String>,
    registry_password: Option<String>,
    registry_password_file: Option<String>,
    next_web_override: Option<String>,
    spring_api_override: Option<String>,
}

/// The value of image settings.
pub struct ImageSettingsView {
    pub push_registry: Seq<char>,
    pub pull_registry: Seq<char>,
    pub namespace: Seq<char>,
    pub tag: Seq<char>,
    pub registry_username: Option<Seq<char>>,
    pub registry_password: Option<Seq<char>>,
    pub registry_password_file: Option<Seq<char>>,
    pub next_web_override: Option<Seq<char>>,
    pub spring_api_override: Option<Seq<char>>,
}

impl View for ImageSettings {
    type V = ImageSettingsView;

    closed spec fn view(&self) -> ImageSettingsView {
        ImageSettingsView {
            push_registry: self.push_registry@,
            pull_registry: self.pull_registry@,
            namespace: self.namespace@,
            tag: self.tag@,
            registry_username: opt_view(self.registry_username),
            registry_password: opt_view(self.registry_password),
            registry_password_file: opt_view(self.registry_password_file),
            next_web_override: opt_view(self.next_web_override),
            spring_api_override: opt_view(self.spring_api_override),
        }
    }
}

/// The first of two optional values that is present.
pub open spec fn or_else(a: Option<Seq<char>>, b: Option<Seq<char>>) -> Option<Seq<char>> {
    match a {
        Some(x) => Some(x),
        None => b,
    }
}

/// An optional value, or a default when it is absent.
pub open spec fn unwrap_or(a: Option<Seq<char>>, d: Seq<char>) -> Seq<char> {
    match a {
        Some(x) => x,
        None => d,
    }
}

/// The settings a profile gives in an environment: each setting comes from
/// its variable when that is set and not blank, else from the profile; the
/// pull registry falls back on an overridden push registry first.
pub open spec fn spec_image_settings(profile: ImageProfile, env: EnvSnapshotView) -> ImageSettingsView {
    let d = profile_defaults(profile);
    let push_override = env.non_blank_var("COMPANY_CI_IMAGE_PUSH_REGISTRY"@);
    ImageSettingsView {
        push_registry: unwrap_or(push_override, d.push_registry),
        pull_registry: unwrap_or(
            or_else(env.non_blank_var("COMPANY_CI_IMAGE_PULL_REGISTRY"@), push_override),
            d.pull_registry,
        ),
        namespace: unwrap_or(env.non_blank_var("COMPANY_CI_IMAGE_NAMESPACE"@), d.namespace),
        tag: unwrap_or(env.non_blank_var("COMPANY_CI_IMAGE_TAG"@), d.tag),
        registry_username: or_else(
            env.non_blank_var("COMPANY_CI_IMAGE_REGISTRY_USERNAME"@),
            d.registry_username,
        ),
        registry_password: env.non_blank_var("COMPANY_CI_IMAGE_REGISTRY_PASSWORD"@),
        registry_password_file: or_else(
            env.non_blank_var("COMPANY_CI_IMAGE_REGISTRY_PASSWORD_FILE"@),
            d.registry_password_file,
        ),
        next_web_override: env.non_blank_var(image_override_env(ApplicationImage::NextWeb)),
        spring_api_override: env.non_blank_var(image_override_env(ApplicationImage::SpringApi)),
    }
}

/// The explicit reference configured for an application, if any.
pub open spec fn explicit_override_of(s: ImageSettingsView, app: ApplicationImage) -> Option<
    Seq<char>,
> {
    match app {
        ApplicationImage::NextWeb => s.next_web_override,
        ApplicationImage::SpringApi => s.spring_api_override,
    }
}

/// The reference of an application image in `registry`: the explicit
/// override when there is one, else `registry/[namespace/]name:tag`.
pub open spec fn spec_image_ref(s: ImageSettingsView, app: ApplicationImage, registry: Seq<char>) -> Seq<
    char,
> {
    match explicit_override_of(s, app) {
        Some(explicit) => explicit,
        None => if s.namespace.len() == 0 {
            registry + "/"@ + image_name(app) + ":"@ + s.tag
        } else {
            registry + "/"@ + s.namespace + "/"@ + image_name(app) + ":"@ + s.tag
        },
    }
}

/// Whether any registry credential is configured.
pub open spec fn has_any_auth(s: ImageSettingsView) -> bool {
    s.registry_username is Some || s.registry_password is Some || s.registry_password_file is Some
}

/// Whether a user name and a password or password file are configured.
pub open spec fn spec_has_registry_auth(s: ImageSettingsView) -> bool {
    s.registry_username is Some && (s.registry_password is Some || s.registry_password_file is Some)
}

/// Credentials are optional, but when any is given the user name and a
/// password (or password file) must both be given.
pub open spec fn spec_validate_publish_contract(s: ImageSettingsView, plan: Seq<char>) -> Result<
    (),
    ErrorView,
> {
    if !has_any_auth(s) {
        Ok(())
    } else if s.registry_username is None {
        Err(
            ErrorView::MissingSecretEnv {
                plan,
                name: "COMPANY_CI_IMAGE_REGISTRY_USERNAME"@,
            },
        )
    } else if s.registry_password is None && s.registry_password_file is None {
        Err(
            ErrorView::MissingEnvOrFile {
                plan,
                env_name: "COMPANY_CI_IMAGE_REGISTRY_PASSWORD"@,
                file_env_name: "COMPANY_CI_IMAGE_REGISTRY_PASSWORD_FILE"@,
            },
        )
    } else {
        Ok(())
    }
}

/// The value of a check outcome.
pub open spec fn check_outcome(r: Result<(), CompanyCiError>) -> Result<(), ErrorView> {
    match r {
        Ok(_) => Ok(()),
        Err(e) => Err(e@),
    }
}

fn static_opt(o: Option<&'static str>) -> (r: Option<String>)
    ensures
        opt_view(r) == opt_str_view(o),
{
    match o {
        Some(s) => Some(s.to_owned()),
        None => None,
    }
}

fn opt_or(a: Option<String>, b: Option<String>) -> (r: Option<String>)
    ensures
        opt_view(r) == or_else(opt_view(a), opt_view(b)),
{
    match a {
        Some(x) => Some(x),
        None => b,
    }
}

fn opt_or_str(a: Option<String>, d: &str) -> (r: String)
    ensures
        r@ == unwrap_or(opt_view(a), d@),
{
    match a {
        Some(x) => x,
        None => d.to_owned(),
    }
}

fn opt_as_str(o: &Option<String>) -> (r: Option<&str>)
    ensures
        opt_str_view(r) == opt_view(*o),
{
    match o {
        Some(s) => Some(s.as_str()),
        None => None,
    }
}

impl ImageSettings {
    /// The settings `profile` gives in the environment `env`.
    pub fn from_lookup(profile: ImageProfile, env: &EnvSnapshot) -> (r: Self)
        ensures
            r@ == spec_image_settings(profile, env@),
    {
        let defaults = profile.defaults();
        let push_registry_override = env.non_blank_var("COMPANY_CI_IMAGE_PUSH_REGISTRY");
        let push_registry = opt_or_str(push_registry_override.clone(), defaults.push_registry);
        let pull_registry = opt_or_str(
            opt_or(env.non_blank_var("COMPANY_CI_IMAGE_PULL_REGISTRY"), push_registry_override),
            defaults.pull_registry,
        );
        let namespace = opt_or_str(
            env.non_blank_var("COMPANY_CI_IMAGE_NAMESPACE"),
            defaults.namespace,
        );
        let tag = opt_or_str(env.non_blank_var("COMPANY_CI_IMAGE_TAG"), defaults.tag);
        let registry_username = opt_or(
            env.non_blank_var("COMPANY_CI_IMAGE_REGISTRY_USERNAME"),
            static_opt(defaults.registry_username),
        );
        let registry_password = env.non_blank_var("COMPANY_CI_IMAGE_REGISTRY_PASSWORD");
        let registry_password_file = opt_or(
            env.non_blank_var("COMPANY_CI_IMAGE_REGISTRY_PASSWORD_FILE"),
            static_opt(defaults.registry_password_file),
        );
        let next_web_override = env.non_blank_var(ApplicationImage::NextWeb.override_env());
        let spring_api_override = env.non_blank_var(ApplicationImage::SpringApi.override_env());
        ImageSettings {
            push_registry,
            pull_registry,
            namespace,
            tag,
            registry_username,
            registry_password,
            registry_password_file,
            next_web_override,
            spring_api_override,
        }
    }

    /// The same settings with another tag.
    pub fn with_tag(self, tag: String) -> (r: Self)
        ensures
            r@ == (ImageSettingsView { tag: tag@, ..self@ }),
    {
        ImageSettings { tag, ..self }
    }

    /// The reference images are pushed to.
    pub fn push_ref(&self, app: ApplicationImage) -> (r: String)
        ensures
            r@ == spec_image_ref(self@, app, self@.push_registry),
    {
        self.image_ref(app, self.push_registry.as_str())
    }

    /// The reference deployments pull images from.
    pub fn pull_ref(&self, app: ApplicationImage) -> (r: String)
        ensures
            r@ == spec_image_ref(self@, app, self@.pull_registry),
    {
        self.image_ref(app, self.pull_registry.as_str())
    }

    /// The registry images are pushed to.
    pub fn push_registry(&self) -> (r: &str)
        ensures
            r@ == self@.push_registry,
    {
        self.push_registry.as_str()
    }

    /// The registry deployments pull from.
    pub fn pull_registry(&self) -> (r: &str)
        ensures
            r@ == self@.pull_registry,
    {
        self.pull_registry.as_str()
    }

    /// The namespace images live under; empty for none.
    pub fn namespace(&self) -> (r: &str)
        ensures
            r@ == self@.namespace,
    {
        self.namespace.as_str()
    }

    /// The image tag.
    pub fn tag(&self) -> (r: &str)
        ensures
            r@ == self@.tag,
    {
        self.tag.as_str()
    }

    /// The registry user name, if any.
    pub fn registry_username(&self) -> (r: Option<&str>)
        ensures
            opt_str_view(r) == self@.registry_username,
    {
        opt_as_str(&self.registry_username)
    }

    /// The file holding the registry password, if any.
    pub fn registry_password_file(&self) -> (r: Option<&str>)
        ensures
            opt_str_view(r) == self@.registry_password_file,
    {
        opt_as_str(&self.registry_password_file)
    }

    /// Whether a user name and a password or password file are configured.
    pub fn has_registry_auth(&self) -> (r: bool)
        ensures
            r == spec_has_registry_auth(self@),
    {
        self.registry_username.is_some() && (self.registry_password.is_some()
            || self.registry_password_file.is_some())
    }

    /// Checks the registry credentials that an image publish relies on.
    pub fn validate_publish_contract(&self, plan_name: &str) -> (r: Result<(), CompanyCiError>)
        ensures
            check_outcome(r) == spec_validate_publish_contract(self@, plan_name@),
    {
        let has_any_auth = self.registry_username.is_some() || self.registry_password.is_some()
            || self.registry_password_file.is_some();
        if !has_any_auth {
            return Ok(());
        }
        if self.registry_username.is_none() {
            return Err(
                CompanyCiError::MissingSecretEnv {
                    plan: plan_name.to_owned(),
                    name: "COMPANY_CI_IMAGE_REGISTRY_USERNAME".to_owned(),
                },
            );
        }
        if self.registry_password.is_none() && self.registry_password_file.is_none() {
            return Err(
                CompanyCiError::MissingEnvOrFile {
                    plan: plan_name.to_owned(),
                    env_name: "COMPANY_CI_IMAGE_REGISTRY_PASSWORD".to_owned(),
                    file_env_name: "COMPANY_CI_IMAGE_REGISTRY_PASSWORD_FILE".to_owned(),
                },
            );
        }
        Ok(())
    }

    fn image_ref(&self, app: ApplicationImage, registry: &str) -> (r: String)
        ensures
            r@ == spec_image_ref(self@, app, registry@),
    {
        if let Some(explicit) = self.explicit_override(app) {
            return explicit.to_owned();
        }
        if self.namespace.as_str().unicode_len() == 0 {
            registry.to_owned().concat("/").concat(app.name()).concat(":").concat(self.tag.as_str())
        } else {
            registry.to_owned().concat("/").concat(self.namespace.as_str()).concat("/").concat(
                app.name(),
            ).concat(":").concat(self.tag.as_str())
        }
    }

    fn explicit_override(&self, app: ApplicationImage) -> (r: Option<&str>)
        ensures
            opt_str_view(r) == explicit_override_of(self@, app),
    {
        match app {
            ApplicationImage::NextWeb => opt_as_str(&self.next_web_override),
            ApplicationImage::SpringApi => opt_as_str(&self.spring_api_override),
        }
    }
}

/// A publish is refused exactly when some credential is given but the set
/// is incomplete: the check passes if and only if no credential is
/// configured or full registry authentication is.
pub proof fn lemma_publish_contract_matches_auth(s: ImageSettingsView, plan: Seq<char>)
    ensures
        (spec_validate_publish_contract(s, plan) is Ok) <==> (!has_any_auth(s)
            || spec_has_registry_auth(s)),
{
}

/// An explicit override is used for both the push and the pull reference,
/// and without one the two references differ only in their registry.
pub proof fn lemma_push_pull_refs(s: ImageSettingsView, app: ApplicationImage)
    ensures
        explicit_override_of(s, app) is Some ==> spec_image_ref(s, app, s.push_registry)
            == spec_image_ref(s, app, s.pull_registry),
        s.push_registry == s.pull_registry ==> spec_image_ref(s, app, s.push_registry)
            == spec_image_ref(s, app, s.pull_registry),
{
}

/// When only the push registry is overridden, the pull registry follows it.
pub proof fn lemma_pull_registry_follows_push(profile: ImageProfile, env: EnvSnapshotView)
    requires
        env.non_blank_var("COMPANY_CI_IMAGE_PULL_REGISTRY"@) is None,
        env.non_blank_var("COMPANY_CI_IMAGE_PUSH_REGISTRY"@) is Some,
    ensures
        spec_image_settings(profile, env).pull_registry == spec_image_settings(
            profile,
            env,
        ).push_registry,
{
}

/// Retagging changes the tag and nothing else, and the new tag is read back.
pub proof fn lemma_with_tag(s: ImageSettingsView, tag: Seq<char>)
    ensures
        (ImageSettingsView { tag, ..s }).tag == tag,
        (ImageSettingsView { tag, ..s }).push_registry == s.push_registry,
        (ImageSettingsView { tag, ..s }).pull_registry == s.pull_registry,
        (ImageSettingsView { tag, ..s }).namespace == s.namespace,
{
}

/// Each application's image reference is overridden by its own variable
/// and by no other: `NEXT_WEB_IMAGE_REF` for next-web and
/// `SPRING_API_IMAGE_REF` for spring-api, when set and not blank; the
/// override then is the reference pushed and pulled.
pub proof fn lemma_override_by_own_variable(profile: ImageProfile, env: EnvSnapshotView)
    ensures
        explicit_override_of(spec_image_settings(profile, env), ApplicationImage::NextWeb)
            == env.non_blank_var("NEXT_WEB_IMAGE_REF"@),
        explicit_override_of(spec_image_settings(profile, env), ApplicationImage::SpringApi)
            == env.non_blank_var("SPRING_API_IMAGE_REF"@),
        forall|app: ApplicationImage, registry: Seq<char>|
            #![trigger spec_image_ref(spec_image_settings(profile, env), app, registry)]
            explicit_override_of(spec_image_settings(profile, env), app) matches Some(v)
                ==> spec_image_ref(spec_image_settings(profile, env), app, registry) == v,
{
}

} // verus!
