//! Agregado `User`: autenticacao e papel.
use vstd::prelude::*;

use crate::domain::email::{email_valido, Email};
use crate::domain::password::{HashedPassword, PasswordHasher, PlainPassword};
use crate::domain::role::Role;
use crate::ids::UserId;

verus! {

pub struct User {
    id: UserId,
    email: Email,
    password_hash: HashedPassword,
    role: Role,
}

pub struct UserView {
    pub id: u128,
    pub email: Seq<char>,
    pub password_hash: Seq<char>,
    pub role: Role,
}

pub open spec fn user_wf(v: UserView) -> bool {
    email_valido(v.email)
}

impl View for User {
    type V = UserView;

    closed spec fn view(&self) -> UserView {
        UserView {
            id: self.id.spec_uuid(),
            email: self.email@,
            password_hash: self.password_hash@,
            role: self.role,
        }
    }
}

impl User {
    /// Cadastro publico: sempre com o papel comum, nunca administrador.
    pub fn register(email: Email, password_hash: HashedPassword) -> (u: User)
        ensures
            u@.email == email@,
            u@.password_hash == password_hash@,
            u@.role == Role::User,
    {
        User::register_with_role(email, password_hash, Role::User)
    }

    pub fn register_with_role(email: Email, password_hash: HashedPassword, role: Role) -> (u: User)
        ensures
            u@.email == email@,
            u@.password_hash == password_hash@,
            u@.role == role,
    {
        User { id: UserId::new(), email, password_hash, role }
    }

    pub fn reconstitute(id: UserId, email: Email, password_hash: HashedPassword, role: Role) -> (u:
        User)
        ensures
            u@ == (UserView {
                id: id.spec_uuid(),
                email: email@,
                password_hash: password_hash@,
                role,
            }),
    {
        User { id, email, password_hash, role }
    }

    /// O mesmo usuario com outro email.
    pub fn with_email(self, email: Email) -> (u: User)
        ensures
            u@ == (UserView { email: email@, ..self@ }),
    {
        User { id: self.id, email, password_hash: self.password_hash, role: self.role }
    }

    pub fn id(&self) -> (id: UserId)
        ensures
            id.spec_uuid() == self@.id,
    {
        self.id
    }

    pub fn email(&self) -> (e: &Email)
        ensures
            e@ == self@.email,
    {
        &self.email
    }

    pub fn password_hash(&self) -> (h: &HashedPassword)
        ensures
            h@ == self@.password_hash,
    {
        &self.password_hash
    }

    pub fn role(&self) -> (r: Role)
        ensures
            r == self@.role,
    {
        self.role
    }

    /// Pergunta ao `hasher` se a senha candidata corresponde ao hash guardado.
    pub fn matches_password<H: PasswordHasher>(&self, candidate: &PlainPassword, hasher: &H) -> (r: bool)
        ensures
            hasher.conferencia_possivel(candidate@, self@.password_hash, r),
    {
        hasher.verify(candidate, &self.password_hash)
    }

    pub fn check_wf(&self)
        ensures
            user_wf(self@),
    {
        self.email.as_str();
    }

    pub fn duplicate(&self) -> (u: User)
        ensures
            u@ == self@,
    {
        User {
            id: self.id,
            email: self.email.duplicate(),
            password_hash: self.password_hash.duplicate(),
            role: self.role,
        }
    }
}

} // verus!
