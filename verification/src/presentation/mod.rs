//! Apresentacao: o que a camada HTTP decide sem depender do framework (o
//! status de cada erro e a leitura de ids de rota).

pub mod auth;
pub mod error_response;
pub mod path_id;
