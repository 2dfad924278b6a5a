//! Google Play release: the configuration sample, the service-account
//! assertion, the Play Developer API requests, how their replies are read,
//! and the progress lines of a deploy.
use vstd::prelude::*;
use vstd::string::*;
use crate::auth::opt_view;
use crate::modal::string_views;
use crate::text::{decimal, push_decimal, trim, trim_str};

verus! {

// ---- outside calls --------------------------------------------------------

/// The RS256-signed JWT (`jsonwebtoken::encode` with
/// `EncodingKey::from_rsa_pem`) of the claims `iss`, `scope`, `aud`, `iat`,
/// `exp`, signed with the PEM key `pem`.
pub uninterp spec fn rs256_jwt(
    iss: Seq<char>,
    scope: Seq<char>,
    aud: Seq<char>,
    iat: int,
    exp: int,
    pem: Seq<u8>,
) -> Seq<char>;

/// What `serde_json` makes of `text` when asked for the string member `key`:
/// the parser's message where `text` is no JSON, else the member if it is a
/// string.
pub uninterp spec fn json_str_lookup(text: Seq<char>, key: Seq<char>) -> Result<
    Option<Seq<char>>,
    Seq<char>,
>;

/// What `serde_json` makes of `text` when asked for the integer member `key`
/// (as an `i64`).
pub uninterp spec fn json_i64_lookup(text: Seq<char>, key: Seq<char>) -> Result<
    Option<i64>,
    Seq<char>,
>;

/// The lower-case hexadecimal digit for `d < 16`.
pub open spec fn hex_lower(d: u32) -> char {
    seq!['0', '1', '2', '3', '4', '5', '6', '7', '8', '9', 'a', 'b', 'c', 'd', 'e', 'f'][d as int]
}

/// How `serde_json` writes one character inside a string literal: `"` and
/// `\` escaped, the control characters below U+0020 as `\b`, `\t`, `\n`,
/// `\f`, `\r` or `\u00XX`, and everything else as it is.
pub open spec fn json_char(c: char) -> Seq<char> {
    let u = c as u32;
    if c == '"' {
        seq!['\\', '"']
    } else if c == '\\' {
        seq!['\\', '\\']
    } else if u == 0x08 {
        seq!['\\', 'b']
    } else if u == 0x09 {
        seq!['\\', 't']
    } else if u == 0x0A {
        seq!['\\', 'n']
    } else if u == 0x0C {
        seq!['\\', 'f']
    } else if u == 0x0D {
        seq!['\\', 'r']
    } else if u < 0x20 {
        seq!['\\', 'u', '0', '0', hex_lower(u / 16), hex_lower(u % 16)]
    } else {
        seq![c]
    }
}

/// The characters of `s` as `serde_json` writes them inside a string.
pub open spec fn json_escaped(s: Seq<char>) -> Seq<char>
    decreases s.len(),
{
    if s.len() == 0 {
        Seq::empty()
    } else {
        json_char(s[0]) + json_escaped(s.drop_first())
    }
}

/// The JSON string literal of `s`, as `serde_json::to_string` writes it.
pub open spec fn json_string_literal(s: Seq<char>) -> Seq<char> {
    seq!['"'] + json_escaped(s) + seq!['"']
}

/// Whether `jsonwebtoken::EncodingKey::from_rsa_pem` accepts `pem`: a PEM
/// block that holds an RSA private key.
pub uninterp spec fn rsa_pem_key(pem: Seq<u8>) -> bool;

/// Why the service-account assertion could not be made.
pub enum JwtFailure {
    /// The private key is no RSA key in PEM form.
    InvalidKey,
    /// Signing failed.
    Signing,
}

/// Signs the service-account claims with `jsonwebtoken::encode` (header
/// `RS256`) and the key from `jsonwebtoken::EncodingKey::from_rsa_pem`. The
/// contract claims that a token is the named signed JWT of these arguments,
/// and that the key is refused exactly when `from_rsa_pem` refuses the PEM
/// bytes (which it reads alone). Whether signing with an accepted key fails
/// is left open: it draws on the system's random source.
#[verifier::external_body]
fn sign_service_account_jwt(
    iss: &str,
    scope: &str,
    aud: &str,
    iat: i64,
    exp: i64,
    pem: &[u8],
) -> (r: Result<String, JwtFailure>)
    ensures
        r matches Ok(t) ==> t@ == rs256_jwt(iss@, scope@, aud@, iat as int, exp as int, pem@),
        (r matches Err(JwtFailure::InvalidKey)) <==> !rsa_pem_key(pem@),
{
    let mut claims = serde_json::Map::new();
    claims.insert("iss".to_string(), serde_json::Value::from(iss));
    claims.insert("scope".to_string(), serde_json::Value::from(scope));
    claims.insert("aud".to_string(), serde_json::Value::from(aud));
    claims.insert("iat".to_string(), serde_json::Value::from(iat));
    claims.insert("exp".to_string(), serde_json::Value::from(exp));
    let key = jsonwebtoken::EncodingKey::from_rsa_pem(pem).map_err(|_| JwtFailure::InvalidKey)?;
    let header = jsonwebtoken::Header::new(jsonwebtoken::Algorithm::RS256);
    jsonwebtoken::encode(&header, &claims, &key).map_err(|_| JwtFailure::Signing)
}

/// Parses `text` with `serde_json::from_str` into a `serde_json::Value` and
/// reads the member `key` with `Value::get` and `Value::as_str`. The
/// contract claims the result is the named lookup.
#[verifier::external_body]
fn json_member_str(text: &str, key: &str) -> (r: Result<Option<String>, String>)
    ensures
        match r {
            Ok(o) => json_str_lookup(text@, key@) == Ok::<Option<Seq<char>>, Seq<char>>(opt_view(o)),
            Err(e) => json_str_lookup(text@, key@) == Err::<Option<Seq<char>>, Seq<char>>(e@),
        },
{
    let value: serde_json::Value = serde_json::from_str(text).map_err(|e| e.to_string())?;
    Ok(value.get(key).and_then(|v| v.as_str()).map(|s| s.to_string()))
}

/// Parses `text` with `serde_json::from_str` into a `serde_json::Value` and
/// reads the member `key` with `Value::get` and `Value::as_i64`. The
/// contract claims the result is the named lookup.
#[verifier::external_body]
fn json_member_i64(text: &str, key: &str) -> (r: Result<Option<i64>, String>)
    ensures
        match r {
            Ok(o) => json_i64_lookup(text@, key@) == Ok::<Option<i64>, Seq<char>>(o),
            Err(e) => json_i64_lookup(text@, key@) == Err::<Option<i64>, Seq<char>>(e@),
        },
{
    let value: serde_json::Value = serde_json::from_str(text).map_err(|e| e.to_string())?;
    Ok(value.get(key).and_then(|v| v.as_i64()))
}

/// Writes `s` as a JSON string literal with `serde_json::to_string`. The
/// contract claims the result is the literal of `s` as the crate's
/// `format_escaped_str` writes it (`json_string_literal`), and that it is
/// never an error: a `str` is written by `format_escaped_str` into a `Vec`,
/// whose writes do not fail.
#[verifier::external_body]
fn json_quote(s: &str) -> (r: Result<String, String>)
    ensures
        r is Ok,
        r matches Ok(q) ==> q@ == json_string_literal(s@),
{
    serde_json::to_string(s).map_err(|e| e.to_string())
}

// ---- configuration --------------------------------------------------------

/// Where the release configuration lives in a project.
pub fn play_config_rel() -> (r: &'static str)
    ensures
        r@ == ".lingcode/play-deploy.json"@,
{
    ".lingcode/play-deploy.json"
}

/// The lines shown when a project has no release configuration.
pub open spec fn config_sample_lines() -> Seq<Seq<char>> {
    seq![
        "No release config found at .lingcode/play-deploy.json."@,
        "Create it with your Play service-account key, for example:"@,
        "{"@,
        "  \"service_account_json_path\": \"C:/keys/play-service-account.json\","@,
        "  \"package_name\": \"com.example.app\","@,
        "  \"track\": \"internal\","@,
        "  \"auto_bump_version_code\": true"@,
        "}"@,
        ""@,
        "The release bundle must be signed by your project's signingConfigs."@,
    ]
}

/// The sample configuration shown when a project has none.
pub fn play_config_sample() -> (r: Vec<String>)
    ensures
        string_views(r@) == config_sample_lines(),
{
    let r = vec![
        String::from_str("No release config found at .lingcode/play-deploy.json."),
        String::from_str("Create it with your Play service-account key, for example:"),
        String::from_str("{"),
        String::from_str("  \"service_account_json_path\": \"C:/keys/play-service-account.json\","),
        String::from_str("  \"package_name\": \"com.example.app\","),
        String::from_str("  \"track\": \"internal\","),
        String::from_str("  \"auto_bump_version_code\": true"),
        String::from_str("}"),
        String::from_str(""),
        String::from_str("The release bundle must be signed by your project's signingConfigs."),
    ];
    assert(string_views(r@) =~= config_sample_lines());
    r
}

/// Where a built release bundle is looked for, relative to the project, when
/// the configuration names none.
pub fn release_bundle_candidates() -> (r: Vec<&'static str>)
    ensures
        crate::install::str_views(r@) == seq![
            "app/build/outputs/bundle/release/app-release.aab"@,
            "build/outputs/bundle/release/app-release.aab"@,
        ],
{
    let r = vec![
        "app/build/outputs/bundle/release/app-release.aab",
        "build/outputs/bundle/release/app-release.aab",
    ];
    assert(crate::install::str_views(r@) =~= seq![
        "app/build/outputs/bundle/release/app-release.aab"@,
        "build/outputs/bundle/release/app-release.aab"@,
    ]);
    r
}

/// The built bundle: the configured path, where one is configured (whether
/// it is a file beside it), and then nothing else; otherwise the first of
/// `candidates` that is a file.
pub fn located_bundle(explicit: Option<(String, bool)>, candidates: &[(String, bool)]) -> (r: Option<String>)
    ensures
        explicit matches Some((p, is_file)) ==> r == (if is_file {
            Some(p)
        } else {
            None::<String>
        }),
        explicit is None ==> match r {
            Some(b) => exists|i: int|
                0 <= i < candidates@.len() && candidates@[i].1 && b == candidates@[i].0 && forall|
                    j: int,
                | 0 <= j < i ==> !(#[trigger] candidates@[j]).1,
            None => forall|j: int| 0 <= j < candidates@.len() ==> !(#[trigger] candidates@[j]).1,
        },
{
    match explicit {
        Some((p, is_file)) => if is_file {
            Some(p)
        } else {
            None
        },
        None => match crate::android::first_existing(candidates) {
            Some(i) => Some(candidates[i].0.clone()),
            None => None,
        },
    }
}

/// The build files searched for a `versionCode`, in order.
pub fn version_code_files() -> (r: Vec<&'static str>)
    ensures
        crate::install::str_views(r@) == seq![
            "app/build.gradle"@,
            "app/build.gradle.kts"@,
            "build.gradle"@,
            "build.gradle.kts"@,
        ],
{
    let r = vec!["app/build.gradle", "app/build.gradle.kts", "build.gradle", "build.gradle.kts"];
    assert(crate::install::str_views(r@) =~= seq![
        "app/build.gradle"@,
        "app/build.gradle.kts"@,
        "build.gradle"@,
        "build.gradle.kts"@,
    ]);
    r
}

// ---- service-account token ------------------------------------------------

/// The OAuth scope of the Play Developer API.
pub open spec fn play_scope() -> Seq<char> {
    "https://www.googleapis.com/auth/androidpublisher"@
}

/// The token endpoint used when the service account names none.
pub fn default_token_uri() -> (r: String)
    ensures
        r@ == "https://oauth2.googleapis.com/token"@,
{
    String::from_str("https://oauth2.googleapis.com/token")
}

/// The signed assertion of `client_email` for the Play scope at `token_uri`,
/// valid for an hour from `now` (seconds since the epoch), with the body that
/// presents it at the token endpoint.
pub fn service_account_assertion(
    client_email: &str,
    token_uri: &str,
    private_key: &str,
    now: i64,
) -> (r: Result<String, String>)
    requires
        now <= i64::MAX - 3600,
    ensures
        r matches Ok(body) ==> body@ == assertion_body_text(
            rs256_jwt(client_email@, play_scope(), token_uri@, now as int, now + 3600,
            vstd::utf8::encode_utf8(private_key@)),
        ),
        !rsa_pem_key(vstd::utf8::encode_utf8(private_key@)) ==> (r matches Err(m) && m@
            == "invalid service account private key"@),
        rsa_pem_key(vstd::utf8::encode_utf8(private_key@)) ==> (r is Ok || (r matches Err(m)
            && m@ == "signing the auth JWT"@)),
{
    let jwt = sign_service_account_jwt(
        client_email,
        "https://www.googleapis.com/auth/androidpublisher",
        token_uri,
        now,
        now + 3600,
        private_key.as_bytes(),
    );
    assertion_body(jwt)
}

/// The token-endpoint body that presents the signed assertion `jwt`.
pub open spec fn assertion_body_text(jwt: Seq<char>) -> Seq<char> {
    "grant_type=urn:ietf:params:oauth:grant-type:jwt-bearer&assertion="@ + jwt
}

/// What signing gave, turned into the token-endpoint body or the failure
/// shown.
pub fn assertion_body(jwt: Result<String, JwtFailure>) -> (r: Result<String, String>)
    ensures
        jwt matches Ok(t) ==> (r matches Ok(b) && b@ == assertion_body_text(t@)),
        jwt matches Err(JwtFailure::InvalidKey) ==> (r matches Err(m) && m@
            == "invalid service account private key"@),
        jwt matches Err(JwtFailure::Signing) ==> (r matches Err(m) && m@ == "signing the auth JWT"@),
{
    match jwt {
        Ok(t) => {
            let mut body = String::from_str(
                "grant_type=urn:ietf:params:oauth:grant-type:jwt-bearer&assertion=",
            );
            body.append(t.as_str());
            Ok(body)
        },
        Err(JwtFailure::InvalidKey) => Err(String::from_str("invalid service account private key")),
        Err(JwtFailure::Signing) => Err(String::from_str("signing the auth JWT")),
    }
}

/// The access token from the token endpoint's reply (`status` as shown).
pub fn oauth_access_token(success: bool, status: &str, body: &str) -> (r: Result<String, String>)
    ensures
        match oauth_token_result(success, status@, body@) {
            Err(e) => r matches Err(m) && m@ == e,
            Ok(t) => r matches Ok(x) && x@ == t,
        },
{
    if !success {
        let mut m = String::from_str("Google OAuth failed (");
        m.append(status);
        m.append("): ");
        m.append(body);
        return Err(m);
    }
    match json_member_str(body, "access_token") {
        Err(e) => Err(e),
        Ok(None) => Err(String::from_str("OAuth response had no access_token")),
        Ok(Some(t)) => Ok(t),
    }
}


// ---- Play Developer API ---------------------------------------------------

/// The API base of the application `package`.
pub open spec fn api_base(package: Seq<char>) -> Seq<char> {
    "https://androidpublisher.googleapis.com/androidpublisher/v3/applications/"@ + package
}

/// The API base of the application `package`.
pub fn play_api_base(package: &str) -> (r: String)
    ensures
        r@ == api_base(package@),
{
    let mut r = String::from_str(
        "https://androidpublisher.googleapis.com/androidpublisher/v3/applications/",
    );
    r.append(package);
    r
}

/// The request that opens an edit.
pub fn edits_url(base: &str) -> (r: String)
    ensures
        r@ == base@ + "/edits"@,
{
    let mut r = String::from_str(base);
    r.append("/edits");
    r
}

/// The upload of a bundle into the edit `edit_id` of `package`.
pub fn bundle_upload_url(package: &str, edit_id: &str) -> (r: String)
    ensures
        r@ == "https://androidpublisher.googleapis.com/upload/androidpublisher/v3/applications/"@
            + package@ + "/edits/"@ + edit_id@ + "/bundles?uploadType=media"@,
{
    let mut r = String::from_str(
        "https://androidpublisher.googleapis.com/upload/androidpublisher/v3/applications/",
    );
    r.append(package);
    r.append("/edits/");
    r.append(edit_id);
    r.append("/bundles?uploadType=media");
    r
}

/// The request that assigns the edit's release to `track`.
pub fn track_url(base: &str, edit_id: &str, track: &str) -> (r: String)
    ensures
        r@ == base@ + "/edits/"@ + edit_id@ + "/tracks/"@ + track@,
{
    let mut r = String::from_str(base);
    r.append("/edits/");
    r.append(edit_id);
    r.append("/tracks/");
    r.append(track);
    r
}

/// The request that commits the edit.
pub fn commit_url(base: &str, edit_id: &str) -> (r: String)
    ensures
        r@ == base@ + "/edits/"@ + edit_id@ + ":commit"@,
{
    let mut r = String::from_str(base);
    r.append("/edits/");
    r.append(edit_id);
    r.append(":commit");
    r
}

/// The body of a Play API reply to read, or the failure of the request to
/// `url` (`status` as shown).
pub fn api_reply(url: &str, success: bool, status: &str, body: String) -> (r: Result<String, String>)
    ensures
        !success ==> (r matches Err(m) && m@ == "Play API "@ + url@ + " failed ("@ + status@
            + "): "@ + body@),
        success ==> r == Ok::<String, String>(body),
{
    if !success {
        let mut m = String::from_str("Play API ");
        m.append(url);
        m.append(" failed (");
        m.append(status);
        m.append("): ");
        m.append(body.as_str());
        return Err(m);
    }
    Ok(body)
}

/// The message when the reply of `url` does not parse.
pub open spec fn unparsed_reply_message(url: Seq<char>) -> Seq<char> {
    "parsing Play API response from "@ + url
}

/// The id of the edit that the reply `body` of `url` opens. A blank body
/// reads as JSON `null`, which has no id.
pub fn edit_id_from(url: &str, body: &str) -> (r: Result<String, String>)
    ensures
        match edit_id_result(url@, body@) {
            Err(e) => r matches Err(m) && m@ == e,
            Ok(id) => r matches Ok(x) && x@ == id,
        },
{
    let trimmed = trim_str(body);
    if trimmed.as_str().is_empty() {
        return Err(String::from_str("Play API did not return an edit id"));
    }
    match json_member_str(body, "id") {
        Err(_) => {
            let mut m = String::from_str("parsing Play API response from ");
            m.append(url);
            Err(m)
        },
        Ok(None) => Err(String::from_str("Play API did not return an edit id")),
        Ok(Some(id)) => Ok(id),
    }
}

/// The `versionCode` that the upload reply `body` of `url` reports.
pub fn uploaded_version_code(url: &str, body: &str) -> (r: Result<i64, String>)
    ensures
        match version_code_result(url@, body@) {
            Err(e) => r matches Err(m) && m@ == e,
            Ok(v) => r == Ok::<i64, String>(v),
        },
{
    let trimmed = trim_str(body);
    if trimmed.as_str().is_empty() {
        return Err(String::from_str("Play API did not return a versionCode"));
    }
    match json_member_i64(body, "versionCode") {
        Err(_) => {
            let mut m = String::from_str("parsing Play API response from ");
            m.append(url);
            Err(m)
        },
        Ok(None) => Err(String::from_str("Play API did not return a versionCode")),
        Ok(Some(v)) => Ok(v),
    }
}

/// The decimal text of a signed number, as `i64::to_string` writes it.
pub open spec fn signed_decimal(v: int) -> Seq<char> {
    if v < 0 {
        "-"@ + decimal((-v) as nat)
    } else {
        decimal(v as nat)
    }
}

/// Appends the decimal text of `v`.
pub fn push_signed(out: &mut String, v: i64)
    ensures
        final(out)@ == old(out)@ + signed_decimal(v as int),
{
    if v < 0 {
        out.append("-");
        let magnitude: u64 = if v == i64::MIN {
            9223372036854775808u64
        } else {
            (-v) as u64
        };
        push_decimal(out, magnitude);
    } else {
        push_decimal(out, v as u64);
    }
}

/// The body that assigns `version_code` to `track` and completes the
/// release, as `serde_json` writes the object.
pub open spec fn track_body_text(track: Seq<char>, version_code: int) -> Seq<char> {
    "{\"releases\":[{\"status\":\"completed\",\"versionCodes\":[\""@ + signed_decimal(version_code)
        + "\"]}],\"track\":"@ + json_string_literal(track) + "}"@
}

/// The body that assigns `version_code` to `track`.
pub fn track_body(track: &str, version_code: i64) -> (r: String)
    ensures
        r@ == track_body_text(track@, version_code as int),
{
    let quoted = match json_quote(track) {
        Ok(q) => q,
        Err(e) => e,
    };
    let mut r = String::from_str("{\"releases\":[{\"status\":\"completed\",\"versionCodes\":[\"");
    push_signed(&mut r, version_code);
    r.append("\"]}],\"track\":");
    r.append(quoted.as_str());
    r.append("}");
    r
}

// ---- progress lines -------------------------------------------------------

/// How a `versionCode` bump went.
pub enum BumpOutcome {
    Bumped { old: u64, new: u64 },
    NotFound,
    Failed(String),
}

/// The line that reports a `versionCode` bump.
pub fn bump_message(outcome: &BumpOutcome) -> (r: String)
    ensures
        r@ == bump_line(*outcome),
{
    match outcome {
        BumpOutcome::Bumped { old, new } => {
            let mut r = String::from_str("Bumped versionCode ");
            push_decimal(&mut r, *old);
            r.append(" → ");
            push_decimal(&mut r, *new);
            r
        },
        BumpOutcome::NotFound => String::from_str("No versionCode found to bump (skipping)."),
        BumpOutcome::Failed(e) => {
            let mut r = String::from_str("versionCode bump skipped: ");
            r.append(e.as_str());
            r
        },
    }
}

/// The line after the bundle was built at `path`.
pub fn built_message(path: &str) -> (r: String)
    ensures
        r@ == "Built "@ + path@,
{
    let mut r = String::from_str("Built ");
    r.append(path);
    r
}

/// The line after the upload of `version_code`.
pub fn uploaded_message(version_code: i64) -> (r: String)
    ensures
        r@ == "Uploaded versionCode "@ + signed_decimal(version_code as int),
{
    let mut r = String::from_str("Uploaded versionCode ");
    push_signed(&mut r, version_code);
    r
}

/// The line before the release is assigned to `track`.
pub fn assigning_message(track: &str) -> (r: String)
    ensures
        r@ == "Assigning to '"@ + track@ + "' track…"@,
{
    let mut r = String::from_str("Assigning to '");
    r.append(track);
    r.append("' track…");
    r
}

/// The last line of a finished deploy.
pub fn released_message(version_code: i64, track: &str) -> (r: String)
    ensures
        r@ == "Done — versionCode "@ + signed_decimal(version_code as int) + " released to '"@
            + track@ + "'."@,
{
    let mut r = String::from_str("Done — versionCode ");
    push_signed(&mut r, version_code);
    r.append(" released to '");
    r.append(track);
    r.append("'.");
    r
}


// ---- the deploy, step by step ---------------------------------------------

/// The next piece of outside work of a deploy.
pub enum DeployRequest {
    /// Bump `versionCode` in the project's build file.
    BumpVersionCode,
    /// Find how to run Gradle `bundleRelease` in the project.
    ResolveGradle,
    /// Run the release build.
    RunBuild { program: String, args: Vec<String> },
    /// Find the built bundle (at `explicit`, where the configuration names it).
    LocateBundle { explicit: Option<String> },
    /// Read the bundle's bytes.
    ReadBundle { path: String },
    /// Read the service-account key file.
    LoadServiceAccount { path: String },
    /// POST `body` (a form) to the token endpoint `url`.
    RequestToken { url: String, body: String },
    /// POST an empty body to `url` to open an edit.
    CreateEdit { url: String },
    /// POST the bundle to `url`.
    UploadBundle { url: String },
    /// PUT the JSON `body` to `url`.
    AssignTrack { url: String, body: String },
    /// POST an empty body to `url` to commit the edit.
    Commit { url: String },
    /// The deploy is over.
    Finish(Result<(), String>),
}

/// What a step of the deploy shows and asks for next.
pub struct DeployStep {
    pub lines: Vec<String>,
    pub request: DeployRequest,
}

/// A deploy of a release bundle to Google Play, as far as it has got.
pub struct PlayDeploy {
    pub config: crate::android::PlayConfig,
    /// The API base of the application.
    pub base: String,
    pub token: Option<String>,
    pub edit_id: Option<String>,
    pub version_code: Option<i64>,
}

/// `step` shows `lines` and finishes with the failure `message`.
pub open spec fn fails_with(step: DeployStep, lines: Seq<Seq<char>>, message: Seq<char>) -> bool {
    &&& string_views(step.lines@) == lines
    &&& step.request matches DeployRequest::Finish(Err(m)) && m@ == message
}

fn lines_of(a: Option<String>, b: Option<String>) -> (r: Vec<String>)
    ensures
        string_views(r@) == (match a {
            Some(x) => seq![x@],
            None => Seq::empty(),
        }) + (match b {
            Some(y) => seq![y@],
            None => Seq::empty(),
        }),
{
    let mut r: Vec<String> = Vec::new();
    let ghost e: Seq<Seq<char>> = Seq::empty();
    assert(string_views(r@) =~= e);
    if let Some(x) = a {
        r.push(x);
    }
    if let Some(y) = b {
        r.push(y);
    }
    assert(string_views(r@) =~= (match a {
        Some(x) => seq![x@],
        None => Seq::<Seq<char>>::empty(),
    }) + (match b {
        Some(y) => seq![y@],
        None => Seq::<Seq<char>>::empty(),
    }));
    r
}

fn failed(lines: Vec<String>, message: String) -> (s: DeployStep)
    ensures
        s.lines == lines,
        s.request matches DeployRequest::Finish(Err(m)) && m == message,
{
    DeployStep { lines, request: DeployRequest::Finish(Err(message)) }
}

impl PlayDeploy {
    /// A deploy with `config` that has not started.
    pub fn new(config: crate::android::PlayConfig) -> (d: Self)
        ensures
            d.config == config,
            d.base@ == api_base(config.package_name@),
            d.token is None && d.edit_id is None && d.version_code is None,
    {
        let base = play_api_base(config.package_name.as_str());
        PlayDeploy { config, base, token: None, edit_id: None, version_code: None }
    }

    /// The first step: bump `versionCode` where configured, else build.
    pub fn start(&self) -> (s: DeployStep)
        ensures
            self.config.auto_bump_version_code ==> string_views(s.lines@) == Seq::<Seq<char>>::empty()
                && s.request is BumpVersionCode,
            !self.config.auto_bump_version_code ==> string_views(s.lines@) == seq![
                "Building release bundle…"@,
            ] && s.request is ResolveGradle,
    {
        if self.config.auto_bump_version_code {
            DeployStep { lines: lines_of(None, None), request: DeployRequest::BumpVersionCode }
        } else {
            DeployStep {
                lines: lines_of(Some(String::from_str("Building release bundle…")), None),
                request: DeployRequest::ResolveGradle,
            }
        }
    }

    /// After the bump: report it and build.
    pub fn on_bumped(&self, outcome: &BumpOutcome) -> (s: DeployStep)
        ensures
            s.request is ResolveGradle,
            string_views(s.lines@) == seq![bump_line(*outcome), "Building release bundle…"@],
    {
        let m = bump_message(outcome);
        DeployStep {
            lines: lines_of(Some(m), Some(String::from_str("Building release bundle…"))),
            request: DeployRequest::ResolveGradle,
        }
    }

    /// With the Gradle invocation found (or not): run the build.
    pub fn on_gradle(&self, command: Option<(String, Vec<String>)>) -> (s: DeployStep)
        ensures
            command is None ==> fails_with(s, Seq::empty(),
                "No Gradle wrapper (gradlew) and no system `gradle` on PATH."@),
            command matches Some((p, a)) ==> (s.request matches DeployRequest::RunBuild {
                program,
                args,
            } && program == p && args == a && s.lines@.len() == 0),
    {
        match command {
            None => failed(
                lines_of(None, None),
                String::from_str("No Gradle wrapper (gradlew) and no system `gradle` on PATH."),
            ),
            Some((program, args)) => DeployStep {
                lines: Vec::new(),
                request: DeployRequest::RunBuild { program, args },
            },
        }
    }

    /// After the build: find the bundle, or fail.
    pub fn on_build_finished(&self, success: bool) -> (s: DeployStep)
        ensures
            !success ==> fails_with(s, Seq::empty(), "Release build failed."@),
            success ==> (s.request matches DeployRequest::LocateBundle { explicit }
                && explicit == self.config.aab_path && s.lines@.len() == 0),
    {
        if !success {
            return failed(lines_of(None, None), String::from_str("Release build failed."));
        }
        let explicit = match &self.config.aab_path {
            Some(p) => Some(p.clone()),
            None => None,
        };
        DeployStep { lines: Vec::new(), request: DeployRequest::LocateBundle { explicit } }
    }

    /// With the bundle found (or not): read it.
    pub fn on_bundle_located(&self, path: Option<String>) -> (s: DeployStep)
        ensures
            path is None ==> fails_with(s, Seq::empty(),
                "could not find the built .aab (set \"aab_path\" in the config)"@),
            path matches Some(p) ==> (s.request matches DeployRequest::ReadBundle { path: q }
                && q == p && string_views(s.lines@) == seq!["Built "@ + p@]),
    {
        match path {
            None => failed(
                lines_of(None, None),
                String::from_str("could not find the built .aab (set \"aab_path\" in the config)"),
            ),
            Some(p) => {
                let line = built_message(p.as_str());
                DeployStep { lines: lines_of(Some(line), None), request: DeployRequest::ReadBundle { path: p } }
            },
        }
    }

    /// With the bundle read (or not): load the service account.
    pub fn on_bundle_read(&self, read: Result<(), String>) -> (s: DeployStep)
        ensures
            read matches Err(e) ==> (s.request matches DeployRequest::Finish(Err(m)) && m == e
                && s.lines@.len() == 0),
            read is Ok ==> (s.request matches DeployRequest::LoadServiceAccount { path }
                && path@ == self.config.service_account_json_path@ && string_views(s.lines@)
                == seq!["Authenticating with Google Play…"@]),
    {
        match read {
            Err(e) => failed(Vec::new(), e),
            Ok(()) => DeployStep {
                lines: lines_of(Some(String::from_str("Authenticating with Google Play…")), None),
                request: DeployRequest::LoadServiceAccount {
                    path: self.config.service_account_json_path.clone(),
                },
            },
        }
    }

    /// With the service account read (its e-mail, key and token endpoint) at
    /// time `now`: ask for a token with the signed assertion.
    pub fn on_service_account(&self, account: Result<(String, String, String), String>, now: i64) -> (s:
        DeployStep)
        requires
            now <= i64::MAX - 3600,
        ensures
            s.lines@.len() == 0,
            account matches Err(e) ==> (s.request matches DeployRequest::Finish(Err(m)) && m == e),
            account matches Ok((email, key, uri)) ==> match s.request {
                DeployRequest::RequestToken { url, body } => url == uri && body@
                    == assertion_body_text(
                    rs256_jwt(email@, play_scope(), uri@, now as int, now + 3600,
                    vstd::utf8::encode_utf8(key@)),
                ) && rsa_pem_key(vstd::utf8::encode_utf8(key@)),
                DeployRequest::Finish(Err(m)) => if rsa_pem_key(vstd::utf8::encode_utf8(key@)) {
                    m@ == "signing the auth JWT"@
                } else {
                    m@ == "invalid service account private key"@
                },
                _ => false,
            },
    {
        match account {
            Err(e) => failed(Vec::new(), e),
            Ok((email, key, uri)) => match service_account_assertion(
                email.as_str(),
                uri.as_str(),
                key.as_str(),
                now,
            ) {
                Err(m) => failed(Vec::new(), m),
                Ok(body) => DeployStep {
                    lines: Vec::new(),
                    request: DeployRequest::RequestToken { url: uri, body },
                },
            },
        }
    }

    /// With the token endpoint's reply: open an edit.
    pub fn on_token_reply(&mut self, success: bool, status: &str, body: &str) -> (s: DeployStep)
        ensures
            final(self).config == old(self).config,
            final(self).base == old(self).base,
            final(self).edit_id == old(self).edit_id,
            final(self).version_code == old(self).version_code,
            match oauth_token_result(success, status@, body@) {
                Err(m) => fails_with(s, Seq::empty(), m) && final(self).token == old(self).token,
                Ok(t) => {
                    &&& final(self).token matches Some(k) && k@ == t
                    &&& string_views(s.lines@) == seq!["Creating Play edit…"@]
                    &&& s.request matches DeployRequest::CreateEdit { url } && url@ == old(
                        self,
                    ).base@ + "/edits"@
                },
            },
    {
        match oauth_access_token(success, status, body) {
            Err(m) => failed(lines_of(None, None), m),
            Ok(t) => {
                self.token = Some(t);
                DeployStep {
                    lines: lines_of(Some(String::from_str("Creating Play edit…")), None),
                    request: DeployRequest::CreateEdit { url: edits_url(self.base.as_str()) },
                }
            },
        }
    }
}

/// The token, or the failure, that the token endpoint's reply gives.
pub open spec fn oauth_token_result(success: bool, status: Seq<char>, body: Seq<char>) -> Result<
    Seq<char>,
    Seq<char>,
> {
    if !success {
        Err("Google OAuth failed ("@ + status + "): "@ + body)
    } else {
        match json_str_lookup(body, "access_token"@) {
            Err(e) => Err(e),
            Ok(None) => Err("OAuth response had no access_token"@),
            Ok(Some(t)) => Ok(t),
        }
    }
}

/// The line that reports a `versionCode` bump.
pub open spec fn bump_line(outcome: BumpOutcome) -> Seq<char> {
    match outcome {
        BumpOutcome::Bumped { old, new } => "Bumped versionCode "@ + decimal(old as nat) + " → "@
            + decimal(new as nat),
        BumpOutcome::NotFound => "No versionCode found to bump (skipping)."@,
        BumpOutcome::Failed(e) => "versionCode bump skipped: "@ + e@,
    }
}


/// The id that an edit reply gives, or the failure.
pub open spec fn edit_id_result(url: Seq<char>, body: Seq<char>) -> Result<Seq<char>, Seq<char>> {
    if trim(body).len() == 0 {
        Err("Play API did not return an edit id"@)
    } else {
        match json_str_lookup(body, "id"@) {
            Err(_) => Err(unparsed_reply_message(url)),
            Ok(None) => Err("Play API did not return an edit id"@),
            Ok(Some(id)) => Ok(id),
        }
    }
}

/// The `versionCode` that an upload reply gives, or the failure.
pub open spec fn version_code_result(url: Seq<char>, body: Seq<char>) -> Result<i64, Seq<char>> {
    if trim(body).len() == 0 {
        Err("Play API did not return a versionCode"@)
    } else {
        match json_i64_lookup(body, "versionCode"@) {
            Err(_) => Err(unparsed_reply_message(url)),
            Ok(None) => Err("Play API did not return a versionCode"@),
            Ok(Some(v)) => Ok(v),
        }
    }
}

/// The failure of a Play API request to `url`, if any: a failed status, or
/// a body that is not blank and not JSON.
pub open spec fn reply_failure(url: Seq<char>, success: bool, status: Seq<char>, body: Seq<char>) -> Option<
    Seq<char>,
> {
    if !success {
        Some("Play API "@ + url + " failed ("@ + status + "): "@ + body)
    } else if trim(body).len() > 0 && json_str_lookup(body, "id"@) is Err {
        Some(unparsed_reply_message(url))
    } else {
        None
    }
}

/// Checks a reply whose content is not used: it must succeed and be JSON.
pub fn check_reply(url: &str, success: bool, status: &str, body: &str) -> (r: Result<(), String>)
    ensures
        match reply_failure(url@, success, status@, body@) {
            Some(m) => r matches Err(x) && x@ == m,
            None => r is Ok,
        },
{
    if !success {
        return match api_reply(url, success, status, String::from_str(body)) {
            Err(m) => Err(m),
            Ok(_) => Ok(()),
        };
    }
    let trimmed = trim_str(body);
    if trimmed.as_str().is_empty() {
        return Ok(());
    }
    match json_member_str(body, "id") {
        Err(_) => {
            let mut m = String::from_str("parsing Play API response from ");
            m.append(url);
            Err(m)
        },
        Ok(_) => Ok(()),
    }
}

impl PlayDeploy {
    /// With the reply that opens the edit: upload the bundle.
    pub fn on_edit_reply(&mut self, success: bool, status: &str, body: &str) -> (s: DeployStep)
        ensures
            final(self).config == old(self).config,
            final(self).base == old(self).base,
            final(self).token == old(self).token,
            final(self).version_code == old(self).version_code,
            !success ==> fails_with(s, Seq::empty(), "Play API "@ + (old(self).base@ + "/edits"@)
                + " failed ("@ + status@ + "): "@ + body@) && final(self).edit_id == old(self).edit_id,
            success ==> match edit_id_result(old(self).base@ + "/edits"@, body@) {
                Err(m) => fails_with(s, Seq::empty(), m) && final(self).edit_id == old(self).edit_id,
                Ok(id) => {
                    &&& final(self).edit_id matches Some(e) && e@ == id
                    &&& string_views(s.lines@) == seq!["Uploading bundle…"@]
                    &&& s.request matches DeployRequest::UploadBundle { url } && url@
                        == "https://androidpublisher.googleapis.com/upload/androidpublisher/v3/applications/"@
                        + old(self).config.package_name@ + "/edits/"@ + id
                        + "/bundles?uploadType=media"@
                },
            },
    {
        let url = edits_url(self.base.as_str());
        let text = match api_reply(url.as_str(), success, status, String::from_str(body)) {
            Err(m) => {
                return failed(lines_of(None, None), m);
            },
            Ok(t) => t,
        };
        match edit_id_from(url.as_str(), text.as_str()) {
            Err(m) => failed(lines_of(None, None), m),
            Ok(id) => {
                let upload = bundle_upload_url(self.config.package_name.as_str(), id.as_str());
                self.edit_id = Some(id);
                DeployStep {
                    lines: lines_of(Some(String::from_str("Uploading bundle…")), None),
                    request: DeployRequest::UploadBundle { url: upload },
                }
            },
        }
    }

    /// With the upload's reply: report the `versionCode` and assign it to the
    /// configured track.
    pub fn on_upload_reply(&mut self, success: bool, status: &str, body: &str) -> (s: DeployStep)
        requires
            old(self).edit_id is Some,
        ensures
            final(self).config == old(self).config,
            final(self).base == old(self).base,
            final(self).token == old(self).token,
            final(self).edit_id == old(self).edit_id,
            ({
                let id = old(self).edit_id->0@;
                let url = "https://androidpublisher.googleapis.com/upload/androidpublisher/v3/applications/"@
                    + old(self).config.package_name@ + "/edits/"@ + id + "/bundles?uploadType=media"@;
                let track = old(self).config.track@;
                if !success {
                    fails_with(s, Seq::empty(), "Play API "@ + url + " failed ("@ + status@ + "): "@
                        + body@)
                } else {
                    match version_code_result(url, body@) {
                        Err(m) => fails_with(s, Seq::empty(), m),
                        Ok(vc) => {
                            &&& final(self).version_code == Some(vc)
                            &&& match s.request {
                                DeployRequest::AssignTrack { url: u, body: b } => {
                                    &&& u@ == old(self).base@ + "/edits/"@ + id + "/tracks/"@ + track
                                    &&& b@ == track_body_text(track, vc as int)
                                    &&& string_views(s.lines@) == seq![
                                        "Uploaded versionCode "@ + signed_decimal(vc as int),
                                        "Assigning to '"@ + track + "' track…"@,
                                    ]
                                },
                                _ => false,
                            }
                        },
                    }
                }
            }),
    {
        let id = match &self.edit_id {
            Some(e) => e.clone(),
            None => String::new(),
        };
        let url = bundle_upload_url(self.config.package_name.as_str(), id.as_str());
        let text = match api_reply(url.as_str(), success, status, String::from_str(body)) {
            Err(m) => {
                return failed(lines_of(None, None), m);
            },
            Ok(t) => t,
        };
        let vc = match uploaded_version_code(url.as_str(), text.as_str()) {
            Err(m) => {
                return failed(lines_of(None, None), m);
            },
            Ok(v) => v,
        };
        self.version_code = Some(vc);
        let uploaded = uploaded_message(vc);
        let assigning = assigning_message(self.config.track.as_str());
        DeployStep {
            lines: lines_of(Some(uploaded), Some(assigning)),
            request: DeployRequest::AssignTrack {
                url: track_url(self.base.as_str(), id.as_str(), self.config.track.as_str()),
                body: track_body(self.config.track.as_str(), vc),
            },
        }
    }

    /// With the reply to the track assignment: commit the edit.
    pub fn on_assign_reply(&self, success: bool, status: &str, body: &str) -> (s: DeployStep)
        requires
            self.edit_id is Some,
        ensures
            ({
                let id = self.edit_id->0@;
                let url = self.base@ + "/edits/"@ + id + "/tracks/"@ + self.config.track@;
                match reply_failure(url, success, status@, body@) {
                    Some(m) => fails_with(s, Seq::empty(), m),
                    None => {
                        &&& string_views(s.lines@) == seq!["Committing…"@]
                        &&& s.request matches DeployRequest::Commit { url: c } && c@ == self.base@
                            + "/edits/"@ + id + ":commit"@
                    },
                }
            }),
    {
        let id = match &self.edit_id {
            Some(e) => e.clone(),
            None => String::new(),
        };
        let url = track_url(self.base.as_str(), id.as_str(), self.config.track.as_str());
        match check_reply(url.as_str(), success, status, body) {
            Err(m) => failed(lines_of(None, None), m),
            Ok(()) => DeployStep {
                lines: lines_of(Some(String::from_str("Committing…")), None),
                request: DeployRequest::Commit { url: commit_url(self.base.as_str(), id.as_str()) },
            },
        }
    }

    /// With the reply to the commit: the release is out.
    pub fn on_commit_reply(&self, success: bool, status: &str, body: &str) -> (s: DeployStep)
        requires
            self.edit_id is Some,
            self.version_code is Some,
        ensures
            ({
                let url = self.base@ + "/edits/"@ + self.edit_id->0@ + ":commit"@;
                match reply_failure(url, success, status@, body@) {
                    Some(m) => fails_with(s, Seq::empty(), m),
                    None => {
                        &&& string_views(s.lines@) == seq![
                            "Done — versionCode "@ + signed_decimal(self.version_code->0 as int)
                                + " released to '"@ + self.config.track@ + "'."@,
                        ]
                        &&& s.request == DeployRequest::Finish(Ok(()))
                    },
                }
            }),
    {
        let id = match &self.edit_id {
            Some(e) => e.clone(),
            None => String::new(),
        };
        let vc = match self.version_code {
            Some(v) => v,
            None => 0,
        };
        let url = commit_url(self.base.as_str(), id.as_str());
        match check_reply(url.as_str(), success, status, body) {
            Err(m) => failed(lines_of(None, None), m),
            Ok(()) => DeployStep {
                lines: lines_of(Some(released_message(vc, self.config.track.as_str())), None),
                request: DeployRequest::Finish(Ok(())),
            },
        }
    }
}

} // verus!
