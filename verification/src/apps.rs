//! Applications: how a client secret is made, and who gets to see it.

use vstd::prelude::*;
use vstd::utf8::encode_utf8;
use crate::password::{hex_lower, sha256, sha256_digest, to_hex};

verus! {

/// The client secret that is made from `seed`: the SHA-256 digest of the seed, in
/// lower-case hexadecimal.
pub open spec fn client_secret_of(seed: Seq<char>) -> Seq<char> {
    hex_lower(sha256(encode_utf8(seed)))
}

/// Calls `Uuid::new_v4` of the crate uuid, which draws a random identifier, and
/// hands back its text. Nothing is promised of the text.
#[verifier::external_body]
fn random_uuid() -> (id: String) {
    uuid::Uuid::new_v4().to_string()
}

/// The client secret that is made from `seed`: 64 hexadecimal digits.
pub fn client_secret_from(seed: &str) -> (secret: String)
    ensures
        secret@ == client_secret_of(seed@),
        secret@.len() == 64,
{
    let digest = sha256_digest(seed.as_bytes());
    to_hex(digest.as_slice())
}

/// A fresh client secret, made from a random seed: 64 hexadecimal digits.
pub fn new_client_secret() -> (secret: String)
    ensures
        exists|seed: Seq<char>| secret@ == client_secret_of(seed),
        secret@.len() == 64,
{
    let seed = random_uuid();
    let secret = client_secret_from(seed.as_str());
    assert(secret@ == client_secret_of(seed@));
    secret
}

/// The occasion on which an application is shown to a caller.
#[derive(Clone, Copy, Debug, PartialEq, Eq, Structural)]
pub enum Disclosure {
    /// As one row of the listing.
    Listed,
    /// On its own, to a caller that owns it or does not.
    Shown { is_owner: bool },
    /// Right after it was created.
    Created,
    /// Right after it was changed.
    Updated,
}

/// Whether the client secret is part of what is shown: to the one who just created
/// the application, and to its owner who asks for it; to nobody else, and never in
/// a listing or after a change.
pub open spec fn secret_is_shown(disclosure: Disclosure) -> bool {
    match disclosure {
        Disclosure::Listed => false,
        Disclosure::Shown { is_owner } => is_owner,
        Disclosure::Created => true,
        Disclosure::Updated => false,
    }
}

/// An application as the store holds it. `T` is the type of its points in time.
#[derive(Clone, Debug)]
pub struct App<T> {
    pub id: String,
    pub name: String,
    pub is_enable: Option<bool>,
    pub created_at: Option<T>,
    pub updated_at: Option<T>,
    pub client_secret: String,
}

/// An application as a response shows it.
#[derive(Clone, Debug)]
pub struct AppResponse<T> {
    pub id: String,
    pub name: String,
    pub is_enable: Option<bool>,
    pub created_at: Option<T>,
    pub updated_at: Option<T>,
    /// The client secret, where the caller may see it.
    pub client_secret: Option<String>,
}

/// `app` as it is shown on the occasion `disclosure`: every field as it is, and the
/// client secret only where that occasion shows it.
pub fn app_response<T>(app: App<T>, disclosure: Disclosure) -> (response: AppResponse<T>)
    ensures
        response.id == app.id,
        response.name == app.name,
        response.is_enable == app.is_enable,
        response.created_at == app.created_at,
        response.updated_at == app.updated_at,
        response.client_secret == if secret_is_shown(disclosure) {
            Some(app.client_secret)
        } else {
            None
        },
{
    let shown = match disclosure {
        Disclosure::Listed => false,
        Disclosure::Shown { is_owner } => is_owner,
        Disclosure::Created => true,
        Disclosure::Updated => false,
    };
    AppResponse {
        id: app.id,
        name: app.name,
        is_enable: app.is_enable,
        created_at: app.created_at,
        updated_at: app.updated_at,
        client_secret: if shown {
            Some(app.client_secret)
        } else {
            None
        },
    }
}

/// The envelope of a response that carries data.
#[derive(Clone, Debug)]
pub struct ApiResponse<T> {
    pub data: T,
}

/// The listing of `apps`: each as a listing shows it, in the order given.
pub fn app_listing<T>(apps: Vec<App<T>>) -> (response: ApiResponse<Vec<AppResponse<T>>>)
    ensures
        response.data@.len() == apps@.len(),
        forall|i: int|
            0 <= i < apps@.len() ==> {
                &&& (#[trigger] response.data@[i]).id == apps@[i].id
                &&& response.data@[i].name == apps@[i].name
                &&& response.data@[i].is_enable == apps@[i].is_enable
                &&& response.data@[i].created_at == apps@[i].created_at
                &&& response.data@[i].updated_at == apps@[i].updated_at
                &&& response.data@[i].client_secret is None
            },
{
    let mut data: Vec<AppResponse<T>> = Vec::new();
    for app in it: apps.into_iter()
        invariant
            it.seq() == apps@,
            data@.len() == it.index(),
            forall|i: int|
                0 <= i < it.index() ==> {
                    &&& (#[trigger] data@[i]).id == apps@[i].id
                    &&& data@[i].name == apps@[i].name
                    &&& data@[i].is_enable == apps@[i].is_enable
                    &&& data@[i].created_at == apps@[i].created_at
                    &&& data@[i].updated_at == apps@[i].updated_at
                    &&& data@[i].client_secret is None
                },
    {
        data.push(app_response(app, Disclosure::Listed));
    }
    ApiResponse { data }
}

} // verus!
