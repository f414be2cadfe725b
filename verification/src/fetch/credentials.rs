//! The account with which the judge is asked for what is not public.

use vstd::prelude::*;
use vstd::slice::slice_to_vec;

verus! {

/// The form that signs a user in, as curl sends it.
#[verifier::external_type_specification]
#[verifier::external_body]
pub struct ExForm(curl::easy::Form);

/// An e-mail address and a password, as bytes.
#[derive(Clone, Debug)]
pub struct Credentials {
    email: Vec<u8>,
    password: Vec<u8>,
}

/// What credentials are made of.
pub struct CredentialsView {
    pub email: Seq<u8>,
    pub password: Seq<u8>,
}

impl View for Credentials {
    type V = CredentialsView;

    closed spec fn view(&self) -> CredentialsView {
        CredentialsView { email: self.email@, password: self.password@ }
    }
}

/// One field of a form: its name and its contents.
#[derive(Debug, PartialEq, Eq)]
pub struct FormPart {
    pub name: String,
    pub contents: Vec<u8>,
}

/// The fields of the form that signs a user in, in the order in which they
/// are sent, each with its name and its contents: the address, the password,
/// and an empty field that stands for the button.
pub open spec fn sign_in_fields(credentials: CredentialsView) -> Seq<(Seq<char>, Seq<u8>)> {
    seq![
        ("email"@, credentials.email),
        ("password"@, credentials.password),
        ("submit"@, Seq::<u8>::empty()),
    ]
}

/// The fields of some parts, as plain sequences.
pub open spec fn fields_of(parts: Seq<FormPart>) -> Seq<(Seq<char>, Seq<u8>)> {
    Seq::new(parts.len(), |i: int| (parts[i].name@, parts[i].contents@))
}

/// The fields of a form, in the order in which they were added, each with
/// its name and its contents.
pub uninterp spec fn form_fields(form: curl::easy::Form) -> Seq<(Seq<char>, Seq<u8>)>;

/// Calls `curl::easy::Form::new`. Trusted: the new form is blank.
#[verifier::external_body]
fn empty_form() -> (form: curl::easy::Form)
    ensures
        form_fields(form) == Seq::<(Seq<char>, Seq<u8>)>::empty(),
{
    curl::easy::Form::new()
}

/// Adds a field to a form, through `Form::part`, `Part::contents` and
/// `Part::add` of curl, and tells whether curl took it. Trusted: a field
/// that curl took stands at the end of the form, under the name and with the
/// contents given, which curl copies. Nothing is claimed of a form that
/// refused a field. The name must not be empty: curl would measure an
/// empty name itself, as text that ends in a zero byte.
#[verifier::external_body]
fn add_part(form: &mut curl::easy::Form, name: &str, contents: &[u8]) -> (added: bool)
    requires
        name@.len() > 0,
    ensures
        added ==> form_fields(*final(form)) == form_fields(*old(form)).push((name@, contents@)),
{
    form.part(name).contents(contents).add().is_ok()
}

impl Credentials {
    /// Credentials with the given address and password.
    pub fn new(email: &[u8], password: &[u8]) -> (credentials: Credentials)
        ensures
            credentials@ == (CredentialsView { email: email@, password: password@ }),
    {
        Credentials { email: slice_to_vec(email), password: slice_to_vec(password) }
    }

    /// The address.
    pub fn email(&self) -> (email: &Vec<u8>)
        ensures
            email@ == self@.email,
    {
        &self.email
    }

    /// The password.
    pub fn password(&self) -> (password: &Vec<u8>)
        ensures
            password@ == self@.password,
    {
        &self.password
    }

    /// The fields of the form that signs the user in.
    pub fn form_parts(&self) -> (parts: Vec<FormPart>)
        ensures
            fields_of(parts@) == sign_in_fields(self@),
    {
        let mut parts: Vec<FormPart> = Vec::new();
        parts.push(FormPart { name: "email".to_owned(), contents: self.email.clone() });
        parts.push(FormPart { name: "password".to_owned(), contents: self.password.clone() });
        parts.push(FormPart { name: "submit".to_owned(), contents: Vec::new() });
        assert(fields_of(parts@) =~= sign_in_fields(self@));
        parts
    }

    /// Builds the form that signs the user in. A form that comes back holds
    /// the fields of `form_parts`, in their order, and nothing else. There
    /// is no form when curl refuses a field.
    pub fn build_form(&self) -> (built: Option<curl::easy::Form>)
        ensures
            built matches Some(form) ==> form_fields(form) == sign_in_fields(self@),
    {
        let parts = self.form_parts();
        let mut form = empty_form();
        let mut i: usize = 0;
        proof {
            reveal_strlit("email");
            reveal_strlit("password");
            reveal_strlit("submit");
            assert forall|k: int| 0 <= k < parts@.len() implies (#[trigger] parts@[k]).name@.len()
                > 0 by {
                let fields = sign_in_fields(self@);
                assert(fields.len() == 3);
                assert(fields[0].0 == "email"@ && fields[1].0 == "password"@ && fields[2].0
                    == "submit"@);
                assert(fields_of(parts@).len() == parts@.len());
                assert(fields_of(parts@)[k].0 == parts@[k].name@);
            }
            assert(fields_of(parts@).take(0) =~= form_fields(form));
        }
        while i < parts.len()
            invariant
                i <= parts.len(),
                forall|k: int| 0 <= k < parts@.len() ==> (#[trigger] parts@[k]).name@.len() > 0,
                form_fields(form) == fields_of(parts@).take(i as int),
            decreases parts.len() - i,
        {
            if !add_part(&mut form, parts[i].name.as_str(), parts[i].contents.as_slice()) {
                return None;
            }
            proof {
                let field = (parts@[i as int].name@, parts@[i as int].contents@);
                assert(fields_of(parts@).take(i + 1) =~= fields_of(parts@).take(i as int).push(
                    field,
                ));
            }
            i += 1;
        }
        assert(fields_of(parts@).take(i as int) =~= fields_of(parts@));
        Some(form)
    }
}

} // verus!
