//! Identifiers of linked external accounts, written `username@service`.
//! Parsing fails on a missing or duplicated `@`, on an empty half, and on a
//! service that is not recognized; `github` is the one recognized today.

use vstd::prelude::*;

use vstd::string::StrSliceExecFns;
use vstd::string::StringExecFns;

verus! {

/// A claimed account on an external service.
#[derive(Clone, Debug, Eq, PartialEq)]
pub enum Service {
    Github(String),
}

/// Why an identifier failed to parse.
#[derive(Clone, Debug, Eq, PartialEq)]
pub enum ServiceParseError {
    /// Not of the form `username@service` with both halves non-empty.
    Invalid,
    /// Well-formed, but the named service is not recognized.
    Unknown(String),
}

/// Position `i` splits `s` into a non-empty username, one `@`, and a
/// non-empty service name.
pub open spec fn splits_at(s: Seq<char>, i: int) -> bool {
    &&& 0 < i
    &&& i + 1 < s.len()
    &&& s[i] == '@'
    &&& forall|j: int| 0 <= j < s.len() && j != i ==> s[j] != '@'
}

impl Service {
    /// The username half of the identifier.
    pub open spec fn username_view(self) -> Seq<char> {
        match self {
            Service::Github(u) => u@,
        }
    }

    /// The service half of the identifier.
    pub open spec fn service_view(self) -> Seq<char> {
        "github"@
    }

    /// The canonical rendering, `username@service`.
    pub open spec fn canonical(self) -> Seq<char> {
        self.username_view() + "@"@ + self.service_view()
    }

    /// The public proof string for this account: names the account and the
    /// proven object, and carries the signature.
    pub open spec fn proof_view(
        self,
        account_id: Seq<char>,
        object: Seq<char>,
        signature: Seq<char>,
    ) -> Seq<char> {
        "I am "@ + self.username_view() + " on "@ + self.service_view()
            + " verifying account "@ + account_id + " for object "@ + object + "\nsignature: "@
            + signature
    }

    pub fn username(&self) -> (r: &str)
        ensures
            r@ == self.username_view(),
    {
        match self {
            Service::Github(u) => u.as_str(),
        }
    }

    pub fn service(&self) -> (r: &str)
        ensures
            r@ == self.service_view(),
    {
        match self {
            Service::Github(_) => "github",
        }
    }

    /// Renders the canonical `username@service` form.
    pub fn to_text(&self) -> (r: String)
        ensures
            r@ == self.canonical(),
    {
        let mut out = String::from_str(self.username());
        out.append("@");
        out.append(self.service());
        proof {
            assert(out@ =~= self.canonical());
        }
        out
    }

    /// Formats the public ownership proof for this account.
    pub fn proof_text(&self, account_id: &str, object: &str, signature: &str) -> (r: String)
        ensures
            r@ == self.proof_view(account_id@, object@, signature@),
    {
        let mut out = String::from_str("I am ");
        out.append(self.username());
        out.append(" on ");
        out.append(self.service());
        out.append(" verifying account ");
        out.append(account_id);
        out.append(" for object ");
        out.append(object);
        out.append("\nsignature: ");
        out.append(signature);
        proof {
            assert(out@ =~= self.proof_view(account_id@, object@, signature@));
        }
        out
    }

    /// Parses `username@service`: exactly one `@`, both halves non-empty,
    /// and a recognized service name.
    pub fn parse(s: &str) -> (r: Result<Service, ServiceParseError>)
        ensures
            match r {
                Ok(v) => v matches Service::Github(_) && exists|i: int|
                    #[trigger] splits_at(s@, i) && s@.subrange(i + 1, s@.len() as int)
                        == "github"@ && v.username_view() == s@.subrange(0, i),
                Err(e) => match e {
                    ServiceParseError::Invalid => forall|i: int| !splits_at(s@, i),
                    ServiceParseError::Unknown(u) => exists|i: int|
                        #[trigger] splits_at(s@, i) && u@ == s@.subrange(i + 1, s@.len() as int)
                            && u@ != "github"@,
                },
            },
    {
        let n = s.unicode_len();
        let mut i: usize = 0;
        let mut at_pos: usize = n;
        let mut multiple: bool = false;
        while i < n
            invariant
                i <= n,
                n == s@.len(),
                at_pos == n || (at_pos < i && s@[at_pos as int] == '@'),
                at_pos == n ==> forall|j: int| 0 <= j < i ==> s@[j] != '@',
                !multiple && at_pos < n ==> forall|j: int|
                    0 <= j < i && j != at_pos ==> s@[j] != '@',
                multiple ==> at_pos < n && exists|j: int|
                    at_pos < j < i && #[trigger] s@[j] == '@',
            decreases n - i,
        {
            let c = s.get_char(i);
            if c == '@' {
                if at_pos == n {
                    at_pos = i;
                } else {
                    multiple = true;
                }
            }
            i = i + 1;
        }
        if at_pos == n {
            proof {
                assert(forall|k: int| !splits_at(s@, k));
            }
            return Err(ServiceParseError::Invalid);
        }
        if multiple {
            proof {
                let j = choose|j: int| at_pos < j < n && #[trigger] s@[j] == '@';
                assert forall|k: int| !splits_at(s@, k) by {
                    if splits_at(s@, k) {
                        assert(s@[at_pos as int] == '@');
                        assert(s@[j] == '@');
                    }
                }
            }
            return Err(ServiceParseError::Invalid);
        }
        if at_pos == 0 || at_pos + 1 == n {
            proof {
                assert forall|k: int| !splits_at(s@, k) by {
                    if splits_at(s@, k) {
                        assert(s@[at_pos as int] == '@');
                    }
                }
            }
            return Err(ServiceParseError::Invalid);
        }
        proof {
            assert(splits_at(s@, at_pos as int));
        }
        let username = s.substring_char(0, at_pos);
        let service_name = s.substring_char(at_pos + 1, n);
        if String::from_str(service_name) == String::from_str("github") {
            Ok(Service::Github(String::from_str(username)))
        } else {
            Err(ServiceParseError::Unknown(String::from_str(service_name)))
        }
    }
}

} // verus!
