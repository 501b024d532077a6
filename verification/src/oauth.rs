//! Rules of the Google OAuth flow: credentials, the local callback request,
//! the pages it answers with, and token expiry.

use vstd::prelude::*;
use vstd::string::*;
use crate::text::{
    append_chars, chars_eq, chars_of, decimal, decimal_chars, find_chars, find_from, find_seq, lines_of,
    lines_seq, slice_chars, starts_with_seq, starts_with_str, string_of,
};

verus! {

/// Value that stands for a missing client id.
pub const CLIENT_ID_PLACEHOLDER: &'static str = "TU_CLIENT_ID_AQUI";

/// Value that stands for a missing client secret.
pub const CLIENT_SECRET_PLACEHOLDER: &'static str = "TU_CLIENT_SECRET_AQUI";

/// Address Google redirects to after authorization.
pub const REDIRECT_URI: &'static str = "http://127.0.0.1:1420/oauth/callback";

/// Port of the local callback server.
pub const CALLBACK_PORT: u16 = 1420;

/// Google's authorization endpoint.
pub const AUTH_URL: &'static str = "https://accounts.google.com/o/oauth2/v2/auth";

/// Google's token endpoint.
pub const TOKEN_URL: &'static str = "https://oauth2.googleapis.com/token";

/// Message returned when the OAuth credentials are not configured.
pub const MISSING_CREDENTIALS_MESSAGE: &'static str = "Por favor configura GOOGLE_CLIENT_ID y GOOGLE_CLIENT_SECRET en un archivo .env o como variables de entorno. Ver documentos/install/CONFIGURAR_GOOGLE_OAUTH.md";

/// Page shown after a successful authorization.
pub const SUCCESS_HTML: &'static str = r#"
<!DOCTYPE html>
<html>
<head>
    <title>Autorización Exitosa</title>
    <meta charset="UTF-8">
    <style>
        body {
            font-family: Arial, sans-serif;
            display: flex;
            justify-content: center;
            align-items: center;
            height: 100vh;
            margin: 0;
            background: linear-gradient(135deg, #667eea 0%, #764ba2 100%);
        }
        .container {
            background: white;
            padding: 40px;
            border-radius: 10px;
            box-shadow: 0 10px 25px rgba(0,0,0,0.2);
            text-align: center;
            max-width: 500px;
        }
        h1 { color: #4caf50; margin-bottom: 20px; }
        p { color: #666; margin: 10px 0; }
        .checkmark {
            font-size: 60px;
            color: #4caf50;
            margin-bottom: 20px;
        }
        .info-box {
            background: #e8f5e9;
            border: 1px solid #4caf50;
            border-radius: 5px;
            padding: 15px;
            margin: 20px 0;
            text-align: left;
        }
        .info-box p {
            margin: 5px 0;
            font-size: 14px;
        }
        .close-button {
            background: #4caf50;
            color: white;
            border: none;
            padding: 12px 30px;
            border-radius: 5px;
            font-size: 16px;
            cursor: pointer;
            margin-top: 20px;
        }
        .close-button:hover {
            background: #45a049;
        }
    </style>
</head>
<body>
    <div class="container">
        <div class="checkmark">✅</div>
        <h1>Autorización Exitosa</h1>
        <p>Tu cuenta de Google ha sido conectada correctamente.</p>
        <div class="info-box">
            <p><strong>✅ Todo listo:</strong></p>
            <p>• La aplicación ya tiene acceso a tu calendario</p>
            <p>• Puedes crear, editar y eliminar eventos</p>
            <p>• Puedes cerrar esta ventana ahora</p>
        </div>
        <button class="close-button" onclick="window.close()">Cerrar Ventana</button>
        <p style="font-size: 12px; color: #999; margin-top: 15px;">
            Si el botón no funciona, cierra esta ventana manualmente.
        </p>
    </div>
    <script>
        // Intentar cerrar automáticamente después de 3 segundos
        setTimeout(() => {
            try {
                window.close();
            } catch(e) {
                // Si no se puede cerrar, mostrar mensaje más visible
                console.log('No se pudo cerrar automáticamente. Por favor, cierra manualmente.');
            }
        }, 3000);
    </script>
</body>
</html>
"#;

/// Page shown when the authorization failed.
pub const ERROR_HTML: &'static str = r#"
<!DOCTYPE html>
<html>
<head>
    <title>Error de Autorización</title>
    <meta charset="UTF-8">
    <style>
        body {
            font-family: Arial, sans-serif;
            display: flex;
            justify-content: center;
            align-items: center;
            height: 100vh;
            margin: 0;
            background: linear-gradient(135deg, #ff7e5f 0%, #feb47b 100%);
        }
        .container {
            background: white;
            padding: 40px;
            border-radius: 10px;
            box-shadow: 0 10px 25px rgba(0,0,0,0.2);
            text-align: center;
            max-width: 500px;
        }
        h1 { color: #f44336; margin-bottom: 20px; }
        p { color: #666; margin: 10px 0; }
        .error-icon {
            font-size: 60px;
            color: #f44336;
            margin-bottom: 20px;
        }
        .info-box {
            background: #ffebee;
            border: 1px solid #f44336;
            border-radius: 5px;
            padding: 15px;
            margin: 20px 0;
            text-align: left;
        }
        .info-box p {
            margin: 5px 0;
            font-size: 14px;
        }
        .close-button {
            background: #f44336;
            color: white;
            border: none;
            padding: 12px 30px;
            border-radius: 5px;
            font-size: 16px;
            cursor: pointer;
            margin-top: 20px;
        }
        .close-button:hover {
            background: #d32f2f;
        }
    </style>
</head>
<body>
    <div class="container">
        <div class="error-icon">❌</div>
        <h1>Error de Autorización</h1>
        <p>Hubo un problema durante la autorización.</p>
        <div class="info-box">
            <p><strong>¿Qué hacer?</strong></p>
            <p>• Vuelve a la aplicación</p>
            <p>• Intenta conectarte nuevamente</p>
            <p>• Si el problema persiste, revisa la consola de la aplicación</p>
        </div>
        <button class="close-button" onclick="window.close()">Cerrar Ventana</button>
    </div>
    <script>
        // Intentar cerrar automáticamente después de 5 segundos
        setTimeout(() => {
            try {
                window.close();
            } catch(e) {
                console.log('No se pudo cerrar automáticamente. Por favor, cierra manualmente.');
            }
        }, 5000);
    </script>
</body>
</html>
"#;

// ------------------------------------------------------------------
// Credentials
// ------------------------------------------------------------------

/// Both credentials differ from their placeholders.
pub open spec fn credentials_ok(client_id: Seq<char>, client_secret: Seq<char>) -> bool {
    client_id != CLIENT_ID_PLACEHOLDER@ && client_secret != CLIENT_SECRET_PLACEHOLDER@
}

/// Whether the OAuth client credentials are configured; when they are not,
/// the message that asks to configure them.
pub fn check_credentials(client_id: &str, client_secret: &str) -> (r: Result<(), String>)
    ensures
        r is Ok <==> credentials_ok(client_id@, client_secret@),
        r matches Err(m) ==> m@ == MISSING_CREDENTIALS_MESSAGE@,
{
    let id = chars_of(client_id);
    let secret = chars_of(client_secret);
    let pid = chars_of(CLIENT_ID_PLACEHOLDER);
    let psecret = chars_of(CLIENT_SECRET_PLACEHOLDER);
    if chars_eq(&id, &pid) || chars_eq(&secret, &psecret) {
        Err(String::from_str(MISSING_CREDENTIALS_MESSAGE))
    } else {
        Ok(())
    }
}

// ------------------------------------------------------------------
// The callback request
// ------------------------------------------------------------------

/// The query of a request line: what follows its first `?`.
pub open spec fn query_of(line: Seq<char>) -> Option<Seq<char>> {
    match find_seq(line, "?"@) {
        Some(q) => Some(line.subrange(q + 1, line.len() as int)),
        None => None,
    }
}

/// Start of the value of a parameter: `skip` characters after the first
/// occurrence of `name` in `query`.
pub open spec fn value_start(query: Seq<char>, name: Seq<char>, skip: int) -> Option<int> {
    match find_seq(query, name) {
        Some(p) => Some(p + skip),
        None => None,
    }
}

/// The value of a parameter: from its start up to the next `&`, or to the end
/// of the query.
pub open spec fn param_value(query: Seq<char>, start: int) -> Seq<char> {
    let rest = query.subrange(start, query.len() as int);
    match find_seq(rest, "&"@) {
        Some(i) => query.subrange(start, start + i),
        None => rest,
    }
}

/// The line is a `GET` line whose query names the parameter.
pub open spec fn line_has_param(line: Seq<char>, name: Seq<char>) -> bool {
    &&& starts_with_seq(line, "GET"@)
    &&& query_of(line) is Some
    &&& value_start(query_of(line)->0, name, 0) is Some
}

/// Index of the first line that has the parameter.
pub open spec fn param_line(lines: Seq<Seq<char>>, name: Seq<char>) -> Option<int>
    decreases lines.len(),
{
    if lines.len() == 0 {
        None
    } else if line_has_param(lines[0], name) {
        Some(0)
    } else {
        match param_line(lines.drop_first(), name) {
            Some(i) => Some(i + 1),
            None => None,
        }
    }
}

/// The value of the parameter `name` on the first `GET` line whose query
/// holds it, the value starting `skip` characters after the start of `name`.
pub open spec fn request_param(request: Seq<char>, name: Seq<char>, skip: int) -> Option<
    Seq<char>,
> {
    let ls = lines_seq(request);
    match param_line(ls, name) {
        Some(i) => {
            let q = query_of(ls[i])->0;
            Some(param_value(q, value_start(q, name, skip)->0))
        },
        None => None,
    }
}

/// The `code` sent back on the callback request line.
pub open spec fn request_code(request: Seq<char>) -> Option<Seq<char>> {
    request_param(request, "code="@, 5)
}

/// The `error` sent back on the callback request line. Its value is read from
/// one character past the `=` onwards.
pub open spec fn request_error(request: Seq<char>) -> Option<Seq<char>> {
    request_param(request, "error="@, 7)
}

/// Reading the error value does not cut a character: the character after
/// `error=` exists and is a single byte, so that the value may start after it.
pub open spec fn error_value_readable(request: Seq<char>) -> bool {
    let ls = lines_seq(request);
    match param_line(ls, "error="@) {
        Some(i) => {
            let q = query_of(ls[i])->0;
            let s = value_start(q, "error="@, 6)->0;
            s < q.len() && (q[s] as u32) <= 0x7f
        },
        None => true,
    }
}

/// The value of `name` in the first `GET` line that has it, starting `skip`
/// characters after `name`.
fn param_from_request(request: &str, name: &str, skip: usize) -> (r: Option<String>)
    requires
        skip >= name@.len(),
        skip > name@.len() ==> ({
            let ls = lines_seq(request@);
            match param_line(ls, name@) {
                Some(i) => {
                    let q = query_of(ls[i])->0;
                    let s = value_start(q, name@, name@.len() as int)->0;
                    s + (skip - name@.len()) <= q.len()
                },
                None => true,
            }
        }),
    ensures
        r matches Some(v) ==> request_param(request@, name@, skip as int) == Some(v@),
        r is None ==> request_param(request@, name@, skip as int) is None,
{
    let t = chars_of(request);
    let ls = lines_of(&t);
    let ghost all = ls@.map_values(|l: Vec<char>| l@);
    let namec = chars_of(name);
    let q_mark = chars_of("?");
    let amp = chars_of("&");
    let mut i: usize = 0;
    while i < ls.len()
        invariant
            i <= ls@.len(),
            all == ls@.map_values(|l: Vec<char>| l@),
            all == lines_seq(request@),
            namec@ == name@,
            q_mark@ == "?"@,
            amp@ == "&"@,
            forall|j: int| 0 <= j < i ==> !line_has_param(#[trigger] all[j], name@),
            skip >= name@.len(),
            skip > name@.len() ==> ({
                match param_line(all, name@) {
                    Some(i) => {
                        let q = query_of(all[i])->0;
                        let s = value_start(q, name@, name@.len() as int)->0;
                        s + (skip - name@.len()) <= q.len()
                    },
                    None => true,
                }
            }),
        decreases ls@.len() - i,
    {
        let line = &ls[i];
        let line_len = line.len();
        assert(line@ == all[i as int]);
        if starts_with_str(line, "GET") {
            if let Some(qpos) = find_chars(line, &q_mark) {
                proof {
                    crate::text::lemma_find_from_bounds(line@, "?"@, 0);
                    reveal_strlit("?");
                }
                let query = slice_chars(line, qpos + 1, line_len);
                assert(query_of(line@) == Some(query@));
                if let Some(p) = find_chars(&query, &namec) {
                    proof {
                        crate::text::lemma_find_from_bounds(query@, name@, 0);
                        lemma_param_line_first(all, name@, i as int);
                    }
                    assert(line_has_param(all[i as int], name@));
                    assert(param_line(all, name@) == Some(i as int));
                    let qlen = query.len();
                    let start = p + skip;
                    assert(start <= query@.len());
                    let rest = slice_chars(&query, start, query.len());
                    let end = match find_chars(&rest, &amp) {
                        Some(a) => {
                            proof {
                                crate::text::lemma_find_from_bounds(rest@, "&"@, 0);
                            }
                            start + a
                        },
                        None => query.len(),
                    };
                    let v = slice_chars(&query, start, end);
                    assert(rest@ == query@.subrange(start as int, query@.len() as int));
                    proof {
                        if end == query.len() {
                            assert(v@ =~= rest@);
                        }
                    }
                    return Some(string_of(&v));
                }
            }
        }
        i = i + 1;
    }
    proof {
        lemma_param_line_none(all, name@);
    }
    None
}

proof fn lemma_param_line_first(ls: Seq<Seq<char>>, name: Seq<char>, i: int)
    requires
        0 <= i < ls.len(),
        line_has_param(ls[i], name),
        forall|j: int| 0 <= j < i ==> !line_has_param(#[trigger] ls[j], name),
    ensures
        param_line(ls, name) == Some(i),
    decreases i,
{
    if i > 0 {
        let rest = ls.drop_first();
        assert forall|j: int| 0 <= j < i - 1 implies !line_has_param(#[trigger] rest[j], name) by {
            assert(rest[j] == ls[j + 1]);
        }
        lemma_param_line_first(rest, name, i - 1);
    }
}

proof fn lemma_param_line_none(ls: Seq<Seq<char>>, name: Seq<char>)
    requires
        forall|j: int| 0 <= j < ls.len() ==> !line_has_param(#[trigger] ls[j], name),
    ensures
        param_line(ls, name) is None,
    decreases ls.len(),
{
    if ls.len() > 0 {
        let rest = ls.drop_first();
        assert forall|j: int| 0 <= j < rest.len() implies !line_has_param(#[trigger] rest[j], name) by {
            assert(rest[j] == ls[j + 1]);
        }
        lemma_param_line_none(rest, name);
    }
}

/// The authorization code on the first `GET` line of a raw callback request
/// whose query holds `code=`.
pub fn extract_code_from_request(request: &str) -> (r: Option<String>)
    ensures
        r matches Some(v) ==> request_code(request@) == Some(v@),
        r is None ==> request_code(request@) is None,
{
    proof {
        reveal_strlit("code=");
    }
    param_from_request(request, "code=", 5)
}

/// The error on the first `GET` line of a raw callback request whose query
/// holds `error=`; the value is read from one character past the `=`.
pub fn extract_error_from_request(request: &str) -> (r: Option<String>)
    requires
        error_value_readable(request@),
    ensures
        r matches Some(v) ==> request_error(request@) == Some(v@),
        r is None ==> request_error(request@) is None,
{
    proof {
        reveal_strlit("error=");
    }
    param_from_request(request, "error=", 7)
}

// ------------------------------------------------------------------
// Raw HTTP answers
// ------------------------------------------------------------------

/// A raw `200 OK` answer carrying an HTML page of `byte_len` bytes.
pub open spec fn html_response(html: Seq<char>, byte_len: nat) -> Seq<char> {
    "HTTP/1.1 200 OK\r\nContent-Type: text/html; charset=utf-8\r\nContent-Length: "@ + decimal(
        byte_len,
    ) + "\r\n\r\n"@ + html
}

fn response_for(html: &str) -> (out: String)
    ensures
        out@ == html_response(html@, html.len() as nat),
{
    let mut v = chars_of("HTTP/1.1 200 OK\r\nContent-Type: text/html; charset=utf-8\r\nContent-Length: ");
    let n = decimal_chars(html.len() as u64);
    append_chars(&mut v, &n);
    let blank = chars_of("\r\n\r\n");
    append_chars(&mut v, &blank);
    let body = chars_of(html);
    append_chars(&mut v, &body);
    string_of(&v)
}

/// The raw HTTP answer that shows the success page.
pub fn create_success_response() -> (out: String)
    ensures
        out@ == html_response(SUCCESS_HTML@, SUCCESS_HTML.len() as nat),
{
    response_for(SUCCESS_HTML)
}

/// The raw HTTP answer that shows the error page.
pub fn create_error_response() -> (out: String)
    ensures
        out@ == html_response(ERROR_HTML@, ERROR_HTML.len() as nat),
{
    response_for(ERROR_HTML)
}

// ------------------------------------------------------------------
// The callback handled by the local server
// ------------------------------------------------------------------

/// What the local callback server does with the parameters it received.
#[derive(Clone, Debug, PartialEq, Eq)]
pub enum CallbackOutcome {
    /// An authorization code arrived: hand it over and show the success page.
    Code(String),
    /// Google reported an error: hand over this message and show the error page.
    Denied(String),
    /// Neither a code nor an error: show the error page and hand over nothing.
    Nothing,
}

/// The decision for a callback with optional `code` and `error` parameters:
/// a code wins over an error.
pub fn callback_outcome(code: Option<&str>, error: Option<&str>) -> (r: CallbackOutcome)
    ensures
        code matches Some(c) ==> (r matches CallbackOutcome::Code(v) && v@ == c@),
        code is None ==> (error matches Some(e) ==> (r matches CallbackOutcome::Denied(m) && m@
            == "Error de autorización: "@ + e@)),
        code is None && error is None ==> r is Nothing,
{
    match code {
        Some(c) => CallbackOutcome::Code(String::from_str(c)),
        None => match error {
            Some(e) => {
                let mut m = chars_of("Error de autorización: ");
                let ec = chars_of(e);
                append_chars(&mut m, &ec);
                CallbackOutcome::Denied(string_of(&m))
            },
            None => CallbackOutcome::Nothing,
        },
    }
}

/// The page the callback server answers with.
pub fn callback_page(outcome: &CallbackOutcome) -> (page: &'static str)
    ensures
        outcome is Code ==> page@ == SUCCESS_HTML@,
        !(outcome is Code) ==> page@ == ERROR_HTML@,
{
    match outcome {
        CallbackOutcome::Code(_) => SUCCESS_HTML,
        _ => ERROR_HTML,
    }
}

// ------------------------------------------------------------------
// Token expiry
// ------------------------------------------------------------------

/// `now as u64` for an `i64`: two's-complement reinterpretation.
pub open spec fn u64_from_i64(x: i64) -> int {
    if x >= 0 {
        x as int
    } else {
        x + 0x1_0000_0000_0000_0000
    }
}

/// `x as i64` for a `u64`: two's-complement reinterpretation.
pub open spec fn i64_from_u64(x: int) -> int {
    if x <= i64::MAX {
        x
    } else {
        x - 0x1_0000_0000_0000_0000
    }
}

/// Expiry time stored for a token that lives `expires_in` seconds from `now`:
/// `now + expires_in` computed as the token exchange does (through `u64`,
/// 0 when the sum overflows a `u64` or no lifetime was given).
pub open spec fn expires_at_spec(expires_in: Option<u64>, now: i64) -> i64 {
    match expires_in {
        Some(e) => {
            let sum = e + u64_from_i64(now);
            if sum <= u64::MAX {
                i64_from_u64(sum) as i64
            } else {
                0
            }
        },
        None => 0,
    }
}

/// Expiry time of a freshly obtained token.
pub fn compute_expires_at(expires_in_secs: Option<u64>, now: i64) -> (r: i64)
    ensures
        r == expires_at_spec(expires_in_secs, now),
{
    match expires_in_secs {
        Some(e) => {
            let n: u64 = if now >= 0 {
                now as u64
            } else {
                (u64::MAX - ((-(now + 1)) as u64))
            };
            assert(n == u64_from_i64(now));
            match e.checked_add(n) {
                Some(s) => {
                    if s <= i64::MAX as u64 {
                        s as i64
                    } else {
                        let back: i64 = -(((u64::MAX - s) as i64)) - 1;
                        assert(back == i64_from_u64(s as int));
                        back
                    }
                },
                None => 0,
            }
        },
        None => 0,
    }
}

/// A token that lives `expires_in` seconds, obtained at a non-negative time
/// `now`, expires exactly `expires_in` seconds later whenever that time is an `i64`.
pub proof fn law_expiry_is_now_plus_lifetime(expires_in: u64, now: i64)
    requires
        now >= 0,
        expires_in + now <= i64::MAX,
    ensures
        expires_at_spec(Some(expires_in), now) == expires_in + now,
{
}

} // verus!
