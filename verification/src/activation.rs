//! How a production is activated with its diagnostics.
use crate::bootstrap::{BootstrapConfig, WriterDeadlines};
use crate::event::copy_text;
use crate::json::{describe_json_error, number_field, text_field, write_json_object, JsonField};
use crate::load_producer::LoadProducerError;
use crate::python_error::error_text;
use crate::run_identity::CanonicalUuid;
use vstd::prelude::*;
use vstd::string::StringExecFns;

verus! {

/// The most events that a live reader may be behind.
pub const SSE_MAX_BUFFERED_EVENTS: usize = 1024;

/// The most bytes that a live reader may be behind.
pub const SSE_MAX_BUFFERED_BYTES: usize = 1048576;

/// How often a live reader hears that the run is still there, in seconds.
pub const SSE_HEARTBEAT_SECONDS: u64 = 5;

/// Why a production was not activated.
#[derive(Debug)]
pub enum ActivationError {
    /// User code raised an error.
    Python { raised: pyo3::PyErr },
    Diagnostic { code: String, detail: String },
}

impl ActivationError {
    /// The error is this one.
    pub open spec fn tells(self, code: Seq<char>, detail: Seq<char>) -> bool {
        self matches ActivationError::Diagnostic { code: told, detail: text } && told@ == code
            && text@ == detail
    }

    pub fn diagnostic(code: String, detail: String) -> (error: Self)
        ensures
            error.tells(code@, detail@),
    {
        ActivationError::Diagnostic { code, detail }
    }

    /// The error after a cleanup failed too. An error that was raised stays as it is.
    pub open spec fn cleaned(self, after: Self, cleanup: Seq<char>) -> bool {
        match self {
            ActivationError::Python { .. } => after == self,
            ActivationError::Diagnostic { code, detail } => after.tells(
                code@,
                detail@ + "; diagnostic cleanup also failed: "@ + cleanup,
            ),
        }
    }

    pub fn with_cleanup(self, cleanup: &str) -> (error: Self)
        ensures
            self.cleaned(error, cleanup@),
    {
        match self {
            ActivationError::Python { raised } => ActivationError::Python { raised },
            ActivationError::Diagnostic { code, detail } => ActivationError::Diagnostic {
                code,
                detail: detail.concat("; diagnostic cleanup also failed: ").concat(cleanup),
            },
        }
    }

    /// The raised error, or this error where none was raised.
    pub fn into_python(self) -> (result: Result<pyo3::PyErr, Self>)
        ensures
            match self {
                ActivationError::Python { raised } => result == Ok::<_, Self>(raised),
                ActivationError::Diagnostic { .. } => result == Err::<pyo3::PyErr, _>(self),
            },
    {
        match self {
            ActivationError::Python { raised } => Ok(raised),
            diagnostic => Err(diagnostic),
        }
    }

    /// The text that describes the error. `raised` is what a raised error says of itself.
    pub open spec fn text(self, raised: Seq<char>) -> Seq<char> {
        match self {
            ActivationError::Python { .. } => raised,
            ActivationError::Diagnostic { code, detail } => code@ + ": "@ + detail@,
        }
    }

    /// The text describes the error. A raised error has said it of itself.
    pub open spec fn described(self, text: Seq<char>) -> bool {
        match self {
            ActivationError::Python { raised } => crate::python_error::says(raised, text),
            ActivationError::Diagnostic { .. } => text == self.text(""@),
        }
    }

    /// Describes the error to a reader. A raised error speaks for itself.
    pub fn describe(&self) -> (text: String)
        ensures
            self.described(text@),
    {
        match self {
            ActivationError::Python { raised } => error_text(raised),
            ActivationError::Diagnostic { code, detail } => code.clone().concat(": ").concat(
                detail.as_str(),
            ),
        }
    }

    /// The line that tells of a failed start.
    pub fn line(&self) -> (line: String)
        ensures
            exists|text: Seq<char>|
                #[trigger] self.described(text) && line@ == failure_line(text),
    {
        startup_failure_line(self.describe().as_str())
    }
}

/// The line that tells of a failed start.
pub open spec fn failure_line(text: Seq<char>) -> Seq<char> {
    "troupe: diagnostic startup failed: "@ + text + "\n"@
}

pub fn startup_failure_line(text: &str) -> (line: String)
    ensures
        line@ == failure_line(text@),
{
    "troupe: diagnostic startup failed: ".to_owned().concat(text).concat("\n")
}

/// What a production is started with.
#[derive(Debug, PartialEq, Eq)]
pub struct RuntimeDiagnosticArgs {
    pub bind_host: String,
    pub port: u16,
    pub advertise_url: Option<String>,
    pub max_run_bytes: Option<u64>,
    pub writer_stall_timeout_ms: u64,
    pub shutdown_timeout_ms: u64,
}

impl Clone for RuntimeDiagnosticArgs {
    fn clone(&self) -> (copy: Self)
        ensures
            copy == *self,
    {
        RuntimeDiagnosticArgs {
            bind_host: self.bind_host.clone(),
            port: self.port,
            advertise_url: copy_text(&self.advertise_url),
            max_run_bytes: self.max_run_bytes,
            writer_stall_timeout_ms: self.writer_stall_timeout_ms,
            shutdown_timeout_ms: self.shutdown_timeout_ms,
        }
    }
}

/// The fields of a configuration, by which runs are told apart.
pub open spec fn identity_fields(arguments: RuntimeDiagnosticArgs) -> Seq<
    (Seq<char>, crate::json::JsonFieldView),
> {
    seq![
        ("schema_version"@, crate::json::JsonFieldView::Number(1)),
        ("bind_host"@, crate::json::JsonFieldView::Text(arguments.bind_host@)),
        ("port"@, crate::json::JsonFieldView::Number(arguments.port as u64)),
        ("advertise_url"@, crate::json::optional_text(arguments.advertise_url)),
        ("max_run_bytes"@, crate::json::optional_number(arguments.max_run_bytes)),
        (
            "writer_stall_timeout_ms"@,
            crate::json::JsonFieldView::Number(arguments.writer_stall_timeout_ms),
        ),
        (
            "shutdown_timeout_ms"@,
            crate::json::JsonFieldView::Number(arguments.shutdown_timeout_ms),
        ),
    ]
}

/// A text in JSON after `prefix` and before `suffix`, or the error with this code.
pub open spec fn encodes(
    fields: Seq<(Seq<char>, crate::json::JsonFieldView)>,
    prefix: Seq<char>,
    suffix: Seq<char>,
    code: Seq<char>,
    result: Result<String, ActivationError>,
) -> bool {
    match crate::json::json_object_text(fields) {
        Ok(text) => result is Ok && result->Ok_0@ == prefix + text + suffix,
        Err(error) => result is Err && exists|text: String|
            {
                &&& #[trigger] crate::json::described_json_error(error, text)
                &&& result->Err_0.tells(code, text@)
            },
    }
}

/// Puts what was encoded between a prefix and a suffix, or tells with this code why it was not.
pub fn framed(
    encoded: Result<String, String>,
    prefix: &str,
    suffix: &str,
    code: &str,
) -> (result: Result<String, ActivationError>)
    ensures
        match encoded {
            Ok(text) => result is Ok && result->Ok_0@ == prefix@ + text@ + suffix@,
            Err(detail) => result is Err && result->Err_0.tells(code@, detail@),
        },
{
    match encoded {
        Ok(text) => Ok(prefix.to_owned().concat(text.as_str()).concat(suffix)),
        Err(detail) => Err(ActivationError::diagnostic(code.to_owned(), detail)),
    }
}

/// Writes a text in JSON after `prefix` and before `suffix`.
fn encode(
    fields: &Vec<(&'static str, JsonField)>,
    prefix: &str,
    suffix: &str,
    code: &str,
) -> (result: Result<String, ActivationError>)
    ensures
        encodes(crate::json::fields_of(fields@), prefix@, suffix@, code@, result),
{
    let written = write_json_object(fields);
    let ghost named = crate::json::json_object_text(crate::json::fields_of(fields@));
    match written {
        Ok(text) => framed(Ok(text), prefix, suffix, code),
        Err(error) => {
            assert(named == Err::<Seq<char>, serde_json::Error>(error));
            let text = describe_json_error(&error);
            let ghost told = text;
            let result = framed(Err(text), prefix, suffix, code);
            proof {
                assert(crate::json::described_json_error(named->Err_0, told));
                assert(result->Err_0.tells(code@, told@));
            }
            result
        },
    }
}

/// What a configuration is known by.
pub fn configuration_identity(arguments: &RuntimeDiagnosticArgs) -> (result: Result<
    String,
    ActivationError,
>)
    ensures
        identity_of(*arguments, result),
{
    let fields: Vec<(&'static str, JsonField)> = vec![
        ("schema_version", JsonField::Number(1)),
        ("bind_host", JsonField::Text(arguments.bind_host.clone())),
        ("port", JsonField::Number(arguments.port as u64)),
        ("advertise_url", text_field(&arguments.advertise_url)),
        ("max_run_bytes", number_field(arguments.max_run_bytes)),
        ("writer_stall_timeout_ms", JsonField::Number(arguments.writer_stall_timeout_ms)),
        ("shutdown_timeout_ms", JsonField::Number(arguments.shutdown_timeout_ms)),
    ];
    assert(crate::json::fields_of(fields@) =~= identity_fields(*arguments));
    encode(&fields, "configuration-v1:", "", "diagnostic_activation.configuration_encode")
}

/// What came of configuring a runtime: the first thing that is not to be had decides.
pub open spec fn is_configuration(
    arguments: RuntimeDiagnosticArgs,
    identity: Result<String, ActivationError>,
    started_at: Result<String, pyo3::PyErr>,
    deadlines: Result<WriterDeadlines, String>,
    result: Result<BootstrapConfig, ActivationError>,
) -> bool {
    match (identity, started_at, deadlines) {
        (Err(error), _, _) => result == Err::<BootstrapConfig, _>(error),
        (_, Err(raised), _) => result == Err::<BootstrapConfig, _>(
            ActivationError::Python { raised },
        ),
        (_, _, Err(detail)) => result is Err && result->Err_0.tells(
            "diagnostic_activation.deadlines"@,
            detail@,
        ),
        (Ok(identity), Ok(started_at), Ok(deadlines)) => result == Ok::<_, ActivationError>(
            BootstrapConfig {
                started_at,
                configuration_identity: identity,
                bind_host: arguments.bind_host,
                port: arguments.port,
                advertise_url: arguments.advertise_url,
                max_run_bytes: arguments.max_run_bytes,
                writer_deadlines: deadlines,
            },
        ),
    }
}

/// Configures a runtime that is known by this identity.
pub fn bootstrap_config(
    arguments: RuntimeDiagnosticArgs,
    identity: Result<String, ActivationError>,
    started_at: Result<String, pyo3::PyErr>,
    deadlines: Result<WriterDeadlines, String>,
) -> (result: Result<BootstrapConfig, ActivationError>)
    ensures
        is_configuration(arguments, identity, started_at, deadlines, result),
{
    let identity = match identity {
        Ok(identity) => identity,
        Err(error) => return Err(error),
    };
    let started_at = match started_at {
        Ok(started_at) => started_at,
        Err(raised) => return Err(ActivationError::Python { raised }),
    };
    let deadlines = match deadlines {
        Ok(deadlines) => deadlines,
        Err(detail) => return Err(
            ActivationError::diagnostic("diagnostic_activation.deadlines".to_owned(), detail),
        ),
    };
    Ok(
        BootstrapConfig::new(started_at, identity, deadlines).with_bind(
            arguments.bind_host,
            arguments.port,
        ).with_advertise_url(arguments.advertise_url).with_max_run_bytes(arguments.max_run_bytes),
    )
}

/// What a configuration is known by, or why it cannot be told.
pub open spec fn identity_of(
    arguments: RuntimeDiagnosticArgs,
    identity: Result<String, ActivationError>,
) -> bool {
    encodes(
        identity_fields(arguments),
        "configuration-v1:"@,
        ""@,
        "diagnostic_activation.configuration_encode"@,
        identity,
    )
}

/// Where a runtime is to be found.
#[derive(Debug, PartialEq, Eq)]
pub struct ReadyLocator {
    pub run_id: CanonicalUuid,
    pub local_url: String,
    pub advertise_url: Option<String>,
    /// The directory of the archive, unless it is no text.
    pub archive_directory: Option<String>,
    pub security_scope: &'static str,
}

impl Clone for ReadyLocator {
    fn clone(&self) -> (copy: Self)
        ensures
            copy == *self,
    {
        ReadyLocator {
            run_id: self.run_id,
            local_url: self.local_url.clone(),
            advertise_url: copy_text(&self.advertise_url),
            archive_directory: copy_text(&self.archive_directory),
            security_scope: self.security_scope,
        }
    }
}

/// The fields that tell where a runtime is to be found.
pub open spec fn locator_fields(locator: ReadyLocator) -> Seq<
    (Seq<char>, crate::json::JsonFieldView),
> {
    seq![
        ("locator_schema_version"@, crate::json::JsonFieldView::Number(1)),
        (
            "run_id"@,
            crate::json::JsonFieldView::Text(
                crate::run_identity::hyphenated(locator.run_id.value),
            ),
        ),
        ("local_url"@, crate::json::JsonFieldView::Text(locator.local_url@)),
        ("advertise_url"@, crate::json::optional_text(locator.advertise_url)),
        ("archive_directory"@, crate::json::JsonFieldView::Text(locator.archive_directory->0@)),
        ("security_scope"@, crate::json::JsonFieldView::Text(locator.security_scope@)),
    ]
}

/// What came of telling where a runtime is to be found.
pub open spec fn is_ready_line(
    locator: ReadyLocator,
    result: Result<String, ActivationError>,
) -> bool {
    if locator.archive_directory is None {
        result is Err && result->Err_0.tells(
            "diagnostic_activation.archive_path"@,
            "archive directory is not valid UTF-8 and cannot be represented in the locator"@,
        )
    } else {
        encodes(
            locator_fields(locator),
            "troupe: diagnostic ready "@,
            "\n"@,
            "diagnostic_activation.locator_encode"@,
            result,
        )
    }
}

/// The line that tells where a runtime is to be found.
pub fn ready_line(locator: ReadyLocator) -> (result: Result<String, ActivationError>)
    ensures
        is_ready_line(locator, result),
{
    let ghost told = locator;
    let archive_directory = match locator.archive_directory {
        Some(directory) => directory,
        None => {
            return Err(
                ActivationError::diagnostic(
                    "diagnostic_activation.archive_path".to_owned(),
                    "archive directory is not valid UTF-8 and cannot be represented in the locator".to_owned(),
                ),
            );
        },
    };
    let fields: Vec<(&'static str, JsonField)> = vec![
        ("locator_schema_version", JsonField::Number(1)),
        ("run_id", JsonField::Text(locator.run_id.describe())),
        ("local_url", JsonField::Text(locator.local_url)),
        ("advertise_url", text_field(&locator.advertise_url)),
        ("archive_directory", JsonField::Text(archive_directory)),
        ("security_scope", JsonField::Text(locator.security_scope.to_owned())),
    ];
    assert(crate::json::fields_of(fields@) =~= locator_fields(told));
    encode(
        &fields,
        "troupe: diagnostic ready ",
        "\n",
        "diagnostic_activation.locator_encode",
    )
}

/// The error of a phase of loading. A phase that was not reported may have left a cleanup that
/// raised an error too: `cleanup` is what that error says.
pub open spec fn is_load_error(
    error: LoadProducerError,
    cleanup: Option<Seq<char>>,
    result: ActivationError,
) -> bool {
    match error {
        LoadProducerError::Python { raised, .. } => result == (ActivationError::Python { raised }),
        LoadProducerError::Diagnostic { error, .. } => match cleanup {
            Some(cleanup) => result.tells(
                error.code@,
                error.text() + "; diagnostic cleanup also failed: "@ + cleanup,
            ),
            None => result.tells(error.code@, error.text()),
        },
    }
}

/// A text that may be absent.
pub open spec fn optional_text(text: Option<String>) -> Option<Seq<char>> {
    match text {
        Some(text) => Some(text@),
        None => None,
    }
}

/// Takes the error of a phase of loading, with what a cleanup that raised an error says of it.
pub fn told_load_error(error: LoadProducerError, cleanup: Option<String>) -> (result:
    ActivationError)
    ensures
        is_load_error(error, optional_text(cleanup), result),
{
    match error {
        LoadProducerError::Python { raised, .. } => ActivationError::Python { raised },
        LoadProducerError::Diagnostic { error, .. } => {
            let told = ActivationError::diagnostic(error.code.clone(), error.describe());
            match cleanup {
                Some(cleanup) => told.with_cleanup(cleanup.as_str()),
                None => told,
            }
        },
    }
}

/// Takes the error of a phase of loading. What a cleanup says that raised an error is the raised
/// object's to tell.
pub fn load_error(error: LoadProducerError) -> (result: ActivationError)
    ensures
        load_error_with_some_text(error, result),
{
    let cleanup = match &error {
        LoadProducerError::Diagnostic { cleanup_error: Some(cleanup), .. } => Some(
            error_text(cleanup),
        ),
        _ => None,
    };
    let ghost text = optional_text(cleanup);
    let result = told_load_error(error, cleanup);
    assert(is_load_error(error, text, result));
    result
}

/// The error of a phase of loading, with what a cleanup said that raised an error.
pub open spec fn load_error_with_some_text(
    error: LoadProducerError,
    result: ActivationError,
) -> bool {
    exists|cleanup: Option<Seq<char>>|
        {
            &&& #[trigger] is_load_error(error, cleanup, result)
            &&& match error {
                LoadProducerError::Diagnostic { cleanup_error: Some(raised), .. } => cleanup is Some
                    && crate::python_error::says(raised, cleanup->0),
                _ => cleanup is None,
            }
        }
}

/// Two configurations have the same identity only where they are the same: no two that differ in
/// anything share their fields.
pub proof fn identities_tell_configurations_apart(
    one: RuntimeDiagnosticArgs,
    other: RuntimeDiagnosticArgs,
)
    requires
        identity_fields(one) == identity_fields(other),
    ensures
        one.bind_host@ == other.bind_host@,
        one.port == other.port,
        one.advertise_url is Some <==> other.advertise_url is Some,
        one.advertise_url is Some ==> one.advertise_url->0@ == other.advertise_url->0@,
        one.max_run_bytes == other.max_run_bytes,
        one.writer_stall_timeout_ms == other.writer_stall_timeout_ms,
        one.shutdown_timeout_ms == other.shutdown_timeout_ms,
{
    let left = identity_fields(one);
    let right = identity_fields(other);
    assert(left[1] == right[1]);
    assert(left[2] == right[2]);
    assert(left[3] == right[3]);
    assert(left[4] == right[4]);
    assert(left[5] == right[5]);
    assert(left[6] == right[6]);
}

/// The fields of a configuration bear the names of what they hold.
pub proof fn configured_values_bear_their_names(arguments: RuntimeDiagnosticArgs, place: int)
    requires
        0 <= place < identity_fields(arguments).len(),
    ensures
        ({
            let (name, value) = identity_fields(arguments)[place];
            &&& name == "port"@ ==> value == crate::json::JsonFieldView::Number(
                arguments.port as u64,
            )
            &&& name == "bind_host"@ ==> value == crate::json::JsonFieldView::Text(
                arguments.bind_host@,
            )
            &&& name == "writer_stall_timeout_ms"@ ==> value == crate::json::JsonFieldView::Number(
                arguments.writer_stall_timeout_ms,
            )
            &&& name == "shutdown_timeout_ms"@ ==> value == crate::json::JsonFieldView::Number(
                arguments.shutdown_timeout_ms,
            )
            &&& name == "max_run_bytes"@ && arguments.max_run_bytes is Some ==> value
                == crate::json::JsonFieldView::Number(arguments.max_run_bytes->0)
            &&& name == "max_run_bytes"@ && arguments.max_run_bytes is None ==> value is Null
            &&& name == "advertise_url"@ && arguments.advertise_url is Some ==> value
                == crate::json::JsonFieldView::Text(arguments.advertise_url->0@)
            &&& name == "advertise_url"@ && arguments.advertise_url is None ==> value is Null
        }),
{
    reveal_strlit("schema_version");
    reveal_strlit("bind_host");
    reveal_strlit("port");
    reveal_strlit("advertise_url");
    reveal_strlit("max_run_bytes");
    reveal_strlit("writer_stall_timeout_ms");
    reveal_strlit("shutdown_timeout_ms");
    assert("schema_version"@.len() == 14);
    assert("bind_host"@.len() == 9);
    assert("port"@.len() == 4);
    assert("advertise_url"@.len() == 13 && "advertise_url"@[0] == 'a');
    assert("max_run_bytes"@.len() == 13 && "max_run_bytes"@[0] == 'm');
    assert("writer_stall_timeout_ms"@.len() == 23);
    assert("shutdown_timeout_ms"@.len() == 19);
    let fields = identity_fields(arguments);
    assert(place == 0 || place == 1 || place == 2 || place == 3 || place == 4 || place == 5 || place
        == 6);
}

/// A line that tells where a run is to be found is written only of a locator whose archive can be
/// written down, and two locators share their fields only where they say the same.
pub proof fn locators_are_told_apart(one: ReadyLocator, other: ReadyLocator)
    requires
        locator_fields(one) == locator_fields(other),
        one.archive_directory is Some && other.archive_directory is Some,
    ensures
        crate::run_identity::hyphenated(one.run_id.value) == crate::run_identity::hyphenated(
            other.run_id.value,
        ),
        one.local_url@ == other.local_url@,
        one.advertise_url is Some <==> other.advertise_url is Some,
        one.advertise_url is Some ==> one.advertise_url->0@ == other.advertise_url->0@,
        one.archive_directory->0@ == other.archive_directory->0@,
        one.security_scope@ == other.security_scope@,
{
    let left = locator_fields(one);
    let right = locator_fields(other);
    assert(left[1] == right[1]);
    assert(left[2] == right[2]);
    assert(left[3] == right[3]);
    assert(left[4] == right[4]);
    assert(left[5] == right[5]);
}

/// What user code raised while it was loaded is told as that, unchanged, and what the diagnostics
/// failed with under its own code, with the words of a cleanup that failed behind it.
pub proof fn load_errors_keep_what_was_raised(
    error: LoadProducerError,
    cleanup: Option<Seq<char>>,
    result: ActivationError,
)
    requires
        is_load_error(error, cleanup, result),
    ensures
        result is Python <==> error is Python,
        error matches LoadProducerError::Python { raised, .. } ==> result
            == (ActivationError::Python { raised }),
        error matches LoadProducerError::Diagnostic { error: told, .. } ==> result->code@
            == told.code@ && result->detail@.len() >= told.text().len() && result->detail@.take(
            told.text().len() as int,
        ) =~= told.text(),
        error is Diagnostic && cleanup is None ==> result->detail@ == error->Diagnostic_error.text(),
{
    if let LoadProducerError::Diagnostic { error: told, .. } = error {
        if let Some(words) = cleanup {
            let rest = "; diagnostic cleanup also failed: "@;
            assert(result->detail@ =~= told.text() + (rest + words));
        }
    }
}

/// A configuration is made exactly where the identity, the time and the deadlines are there, of
/// just those and of the arguments. The first that is not there is what is told.
pub proof fn configurations_are_of_their_parts(
    arguments: RuntimeDiagnosticArgs,
    identity: Result<String, ActivationError>,
    started_at: Result<String, pyo3::PyErr>,
    deadlines: Result<WriterDeadlines, String>,
    result: Result<BootstrapConfig, ActivationError>,
)
    requires
        is_configuration(arguments, identity, started_at, deadlines, result),
    ensures
        result is Ok <==> identity is Ok && started_at is Ok && deadlines is Ok,
        identity matches Err(error) ==> result == Err::<BootstrapConfig, ActivationError>(error),
        identity is Ok && started_at is Err ==> result->Err_0 == (ActivationError::Python {
            raised: started_at->Err_0,
        }),
        result matches Ok(config) ==> {
            &&& config.started_at == started_at->Ok_0
            &&& config.configuration_identity == identity->Ok_0
            &&& config.writer_deadlines == deadlines->Ok_0
            &&& config.bind_host == arguments.bind_host && config.port == arguments.port
            &&& config.advertise_url == arguments.advertise_url
            &&& config.max_run_bytes == arguments.max_run_bytes
        },
{
}

} // verus!
