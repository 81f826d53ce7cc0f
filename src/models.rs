use vstd::prelude::*;

use crate::error::MicrosoftGraphError;
use crate::json::{int_text, json_quote, push_int, quoted};

verus! {

/// Seconds for which an uploaded secret stays valid: one day.
pub const SECRET_LIFETIME: u64 = 86400;

/// A named container of signing or encryption keys.
///
/// `keys` is present only when the directory service returns it; a key set
/// built locally for a create request has none.
#[derive(Debug)]
pub struct KeySet {
    pub id: String,
    pub keys: Option<Vec<Key>>,
}

/// One key of a key set, as the directory service reports it.
#[derive(Debug)]
pub struct Key {
    /// The key's usage (for instance `sig`); `use` on the wire.
    pub usage: String,
    pub kid: Option<String>,
    pub nbf: Option<i64>,
    pub exp: Option<i64>,
}

/// A new secret version to upload into a key set.
#[derive(Debug)]
pub struct KeySecret {
    /// `use` on the wire.
    pub usage: String,
    pub k: String,
    pub nbf: Option<i64>,
    pub exp: Option<i64>,
}

pub open spec fn opt_int_json(o: Option<i64>) -> Seq<char> {
    match o {
        Some(n) => int_text(n as int),
        None => "null"@,
    }
}

pub open spec fn opt_str_json(o: Option<String>) -> Seq<char> {
    match o {
        Some(s) => quoted(s@),
        None => "null"@,
    }
}

/// The JSON object of a key: every field, an absent one as `null`.
pub open spec fn key_json(k: Key) -> Seq<char> {
    "{\"use\":"@ + quoted(k.usage@) + ",\"kid\":"@ + opt_str_json(k.kid) + ",\"nbf\":"@
        + opt_int_json(k.nbf) + ",\"exp\":"@ + opt_int_json(k.exp) + "}"@
}

/// The JSON objects of the keys, separated by commas.
pub open spec fn keys_json(ks: Seq<Key>) -> Seq<char>
    decreases ks.len(),
{
    if ks.len() == 0 {
        Seq::empty()
    } else if ks.len() == 1 {
        key_json(ks[0])
    } else {
        keys_json(ks.drop_last()) + ","@ + key_json(ks.last())
    }
}

/// The JSON object of a key set: `keys` is left out entirely when absent.
pub open spec fn key_set_json(s: KeySet) -> Seq<char> {
    match s.keys {
        None => "{\"id\":"@ + quoted(s.id@) + "}"@,
        Some(ks) => "{\"id\":"@ + quoted(s.id@) + ",\"keys\":["@ + keys_json(ks@) + "]}"@,
    }
}

/// The JSON object of a key secret: every field, an absent one as `null`.
pub open spec fn key_secret_json(s: KeySecret) -> Seq<char> {
    "{\"use\":"@ + quoted(s.usage@) + ",\"k\":"@ + quoted(s.k@) + ",\"nbf\":"@ + opt_int_json(s.nbf)
        + ",\"exp\":"@ + opt_int_json(s.exp) + "}"@
}

fn push_quoted(out: &mut String, s: &str) -> (r: Result<(), MicrosoftGraphError>)
    ensures
        r is Ok,
        r is Ok ==> final(out)@ == old(out)@ + quoted(s@),
        r matches Err(e) ==> e is SerdeError,
{
    match json_quote(s) {
        Ok(j) => {
            out.append(j.as_str());
            Ok(())
        },
        Err(e) => Err(MicrosoftGraphError::SerdeError(e)),
    }
}

fn push_opt_int(out: &mut String, o: Option<i64>)
    ensures
        final(out)@ == old(out)@ + opt_int_json(o),
{
    match o {
        Some(n) => push_int(out, n),
        None => out.append("null"),
    }
}

fn push_opt_str(out: &mut String, o: &Option<String>) -> (r: Result<(), MicrosoftGraphError>)
    ensures
        r is Ok,
        r is Ok ==> final(out)@ == old(out)@ + opt_str_json(*o),
        r matches Err(e) ==> e is SerdeError,
{
    match o {
        Some(s) => push_quoted(out, s.as_str()),
        None => {
            out.append("null");
            Ok(())
        },
    }
}

fn push_key(out: &mut String, k: &Key) -> (r: Result<(), MicrosoftGraphError>)
    ensures
        r is Ok,
        r is Ok ==> final(out)@ == old(out)@ + key_json(*k),
        r matches Err(e) ==> e is SerdeError,
{
    let ghost start = out@;
    out.append("{\"use\":");
    push_quoted(out, k.usage.as_str())?;
    out.append(",\"kid\":");
    push_opt_str(out, &k.kid)?;
    out.append(",\"nbf\":");
    push_opt_int(out, k.nbf);
    out.append(",\"exp\":");
    push_opt_int(out, k.exp);
    out.append("}");
    assert(out@ =~= start + key_json(*k));
    Ok(())
}

fn push_keys(out: &mut String, ks: &Vec<Key>) -> (r: Result<(), MicrosoftGraphError>)
    ensures
        r is Ok,
        r is Ok ==> final(out)@ == old(out)@ + keys_json(ks@),
        r matches Err(e) ==> e is SerdeError,
{
    let ghost start = out@;
    let mut i: usize = 0;
    while i < ks.len()
        invariant
            i <= ks@.len(),
            out@ == start + keys_json(ks@.subrange(0, i as int)),
        decreases ks@.len() - i,
    {
        let ghost before = out@;
        if i > 0 {
            out.append(",");
        }
        push_key(out, &ks[i])?;
        let ghost next = ks@.subrange(0, i + 1);
        assert(next.drop_last() =~= ks@.subrange(0, i as int));
        assert(i == 0 ==> next.drop_last() =~= Seq::<Key>::empty());
        assert(out@ =~= start + keys_json(next));
        i = i + 1;
    }
    assert(ks@.subrange(0, i as int) =~= ks@);
    Ok(())
}

impl KeySet {
    /// A key set with the given identifier and no keys.
    pub fn new(key_id: &str) -> (r: KeySet)
        ensures
            r.id@ == key_id@,
            r.keys is None,
    {
        KeySet { id: key_id.to_string(), keys: None }
    }

    /// The key set as a JSON object.
    pub fn to_json(&self) -> (r: Result<String, MicrosoftGraphError>)
        ensures
            r is Ok,
            r matches Ok(j) ==> j@ == key_set_json(*self),
            r matches Err(e) ==> e is SerdeError,
    {
        let mut out = String::new();
        out.append("{\"id\":");
        push_quoted(&mut out, self.id.as_str())?;
        match &self.keys {
            None => {
                out.append("}");
            },
            Some(ks) => {
                out.append(",\"keys\":[");
                push_keys(&mut out, ks)?;
                out.append("]}");
            },
        }
        assert(out@ =~= key_set_json(*self));
        Ok(out)
    }
}

impl KeySecret {
    /// A signing secret valid from `now` for one day.
    pub fn new(now: u64, secret: &str) -> (r: KeySecret)
        requires
            now + SECRET_LIFETIME <= i64::MAX,
        ensures
            r.usage@ == "sig"@,
            r.k@ == secret@,
            r.nbf == Some(now as i64),
            r.exp == Some((now + SECRET_LIFETIME) as i64),
    {
        KeySecret {
            usage: String::from_str("sig"),
            k: secret.to_string(),
            nbf: Some(now as i64),
            exp: Some((now + SECRET_LIFETIME) as i64),
        }
    }

    /// The key secret as a JSON object.
    pub fn to_json(&self) -> (r: Result<String, MicrosoftGraphError>)
        ensures
            r is Ok,
            r matches Ok(j) ==> j@ == key_secret_json(*self),
            r matches Err(e) ==> e is SerdeError,
    {
        let mut out = String::new();
        out.append("{\"use\":");
        push_quoted(&mut out, self.usage.as_str())?;
        out.append(",\"k\":");
        push_quoted(&mut out, self.k.as_str())?;
        out.append(",\"nbf\":");
        push_opt_int(&mut out, self.nbf);
        out.append(",\"exp\":");
        push_opt_int(&mut out, self.exp);
        out.append("}");
        assert(out@ =~= key_secret_json(*self));
        Ok(out)
    }
}

} // verus!
