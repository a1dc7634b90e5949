//! Error types: the domain's own, the resource services' taxonomy, and a
//! builder that gathers validation messages.
use vstd::prelude::*;

verus! {

/// Errors of the domain layer.
#[derive(Debug, Clone, PartialEq, Eq)]
pub enum DomainError {
    Validation(String),
    BusinessRule(String),
    NotFound(String),
    Unauthorized(String),
    Conflict(String),
    Internal(String),
    InvalidMoney(String),
    InvalidId(String),
}

impl DomainError {
    pub open spec fn parts(&self) -> (Seq<char>, Seq<char>) {
        match self {
            DomainError::Validation(m) => ("验证错误: "@, m@),
            DomainError::BusinessRule(m) => ("业务规则错误: "@, m@),
            DomainError::NotFound(m) => ("未找到: "@, m@),
            DomainError::Unauthorized(m) => ("权限不足: "@, m@),
            DomainError::Conflict(m) => ("冲突: "@, m@),
            DomainError::Internal(m) => ("内部错误: "@, m@),
            DomainError::InvalidMoney(m) => ("金额错误: "@, m@),
            DomainError::InvalidId(m) => ("ID错误: "@, m@),
        }
    }

    /// The message shown to a user: the kind of error, then its detail.
    pub fn to_text(&self) -> (r: String)
        ensures
            r@ == self.parts().0 + self.parts().1,
    {
        let (prefix, detail) = match self {
            DomainError::Validation(m) => ("验证错误: ", m),
            DomainError::BusinessRule(m) => ("业务规则错误: ", m),
            DomainError::NotFound(m) => ("未找到: ", m),
            DomainError::Unauthorized(m) => ("权限不足: ", m),
            DomainError::Conflict(m) => ("冲突: ", m),
            DomainError::Internal(m) => ("内部错误: ", m),
            DomainError::InvalidMoney(m) => ("金额错误: ", m),
            DomainError::InvalidId(m) => ("ID错误: ", m),
        };
        let mut r = prefix.to_string();
        r.append(detail.as_str());
        r
    }
}

/// Errors that the services hand to their callers.
#[derive(Debug, Clone, PartialEq, Eq)]
pub enum ServiceError {
    /// Bad input shape, or a name that is taken.
    Validation(String),
    /// No such row.
    NotFound(String),
    /// Bad credentials, a locked or a disabled account.
    Authentication(String),
    /// Permission denied.
    Authorization(String),
    /// An attempt to delete or alter a guarded admin account.
    ProtectedResource(String),
    /// A failure of the store or of another internal step.
    Internal(String),
}

/// Gathers validation messages; valid while it holds none.
pub struct ValidationErrorBuilder {
    errors: Vec<String>,
}

/// The messages joined with `"; "`.
pub open spec fn joined(msgs: Seq<Seq<char>>) -> Seq<char>
    decreases msgs.len(),
{
    if msgs.len() == 0 {
        Seq::empty()
    } else if msgs.len() == 1 {
        msgs[0]
    } else {
        joined(msgs.drop_last()) + "; "@ + msgs.last()
    }
}

impl ValidationErrorBuilder {
    pub closed spec fn messages(&self) -> Seq<Seq<char>> {
        self.errors@.map_values(|s: String| s@)
    }

    pub fn new() -> (r: Self)
        ensures
            r.messages() == Seq::<Seq<char>>::empty(),
    {
        let r = ValidationErrorBuilder { errors: Vec::new() };
        assert(r.messages() =~= Seq::<Seq<char>>::empty());
        r
    }

    pub fn add_error(&mut self, message: String)
        ensures
            final(self).messages() == old(self).messages().push(message@),
    {
        let ghost before = self.messages();
        self.errors.push(message);
        assert(self.messages() =~= before.push(message@));
    }

    pub fn add_error_if(&mut self, condition: bool, message: String)
        ensures
            final(self).messages() == if condition {
                old(self).messages().push(message@)
            } else {
                old(self).messages()
            },
    {
        if condition {
            self.add_error(message);
        }
    }

    pub fn is_valid(&self) -> (r: bool)
        ensures
            r == (self.messages().len() == 0),
    {
        self.errors.len() == 0
    }

    /// `Ok` while no message was added; else one validation error that holds
    /// every message, in order, joined with `"; "`.
    pub fn build(self) -> (r: Result<(), DomainError>)
        ensures
            self.messages().len() == 0 ==> r is Ok,
            self.messages().len() > 0 ==> (r matches Err(DomainError::Validation(m)) && m@ == joined(
                self.messages(),
            )),
    {
        if self.errors.len() == 0 {
            return Ok(());
        }
        let mut text = self.errors[0].clone();
        let sep = "; ";
        proof {
            reveal_strlit("; ");
        }
        let mut i: usize = 1;
        while i < self.errors.len()
            invariant
                1 <= i <= self.errors.len(),
                text@ == joined(self.messages().subrange(0, i as int)),
                sep@ == "; "@,
            decreases self.errors.len() - i,
        {
            let ghost prefix = self.messages().subrange(0, i + 1);
            assert(prefix.drop_last() =~= self.messages().subrange(0, i as int));
            text.append(sep);
            text.append(self.errors[i].as_str());
            i = i + 1;
        }
        assert(self.messages().subrange(0, self.errors.len() as int) =~= self.messages());
        Err(DomainError::Validation(text))
    }
}

impl Default for ValidationErrorBuilder {
    fn default() -> (r: Self)
        ensures
            r.messages() == Seq::<Seq<char>>::empty(),
    {
        Self::new()
    }
}

} // verus!
