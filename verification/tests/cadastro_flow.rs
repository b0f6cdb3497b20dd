use cadastro_api::application::audit_logger::{AuditAction, AuditEntity, AuditEntry, AuditPayload};
use cadastro_api::application::cliente::delete_cliente::DeleteCliente;
use cadastro_api::application::cliente::get_cliente::GetCliente;
use cadastro_api::application::cliente::list_clientes::ListClientes;
use cadastro_api::application::cliente::register_cliente::RegisterCliente;
use cadastro_api::application::cliente::update_cliente::UpdateCliente;
use cadastro_api::application::dto::{
    AuthenticateUserInput, RegisterClienteInput, RegisterUserInput, UpdateClienteInput,
    UpdateUserInput,
};
use cadastro_api::application::errors::ApplicationError;
use cadastro_api::application::token_service::{AccessToken, TokenClaims, TokenService};
use cadastro_api::application::usuario::authenticate_user::AuthenticateUser;
use cadastro_api::application::usuario::delete_user::DeleteUser;
use cadastro_api::application::usuario::get_current_user::GetCurrentUser;
use cadastro_api::application::usuario::register_user::RegisterUser;
use cadastro_api::application::usuario::update_user::UpdateUser;
use cadastro_api::domain::errors::DomainError;
use cadastro_api::domain::role::Role;
use cadastro_api::ids::{ClienteId, UserId};
use cadastro_api::infra::audited::AuditedRepository;
use cadastro_api::infra::bcrypt_hasher::BcryptPasswordHasher;
use cadastro_api::infra::cache::CacheRepository;
use cadastro_api::infra::repositories::{AuditedClienteRepository, AuditedUserRepository};

/// Hasher bcrypt de custo minimo: testes rapidos.
fn hasher_rapido() -> BcryptPasswordHasher {
    BcryptPasswordHasher::new(4)
}

/// Servico de tokens de teste: o token e o id do usuario com um prefixo.
struct Tokens;

impl TokenService for Tokens {
    fn issue(&self, user_id: UserId, _role: Role) -> Result<AccessToken, String> {
        Ok(AccessToken(format!("token-{}", user_id.as_uuid())))
    }

    fn verify(&self, _token: &str) -> Result<TokenClaims, String> {
        Err("nao usado nos testes".to_string())
    }
}

struct Ambiente {
    usuarios: AuditedUserRepository,
    clientes: AuditedClienteRepository,
    auditoria: Vec<AuditEntry>,
}

fn montar_ambiente() -> Ambiente {
    Ambiente {
        usuarios: AuditedRepository::new(CacheRepository::new()),
        clientes: AuditedRepository::new(CacheRepository::new()),
        auditoria: Vec::new(),
    }
}

impl Ambiente {
    /// O que o logger de arquivo faria: grava, em ordem, o que os
    /// repositorios auditados registraram.
    fn gravar(&mut self) {
        self.auditoria.extend(self.usuarios.take_registros());
        self.auditoria.extend(self.clientes.take_registros());
    }
}

fn uuid_de(texto: &str) -> u128 {
    uuid::Uuid::parse_str(texto).expect("uuid valido").as_u128()
}

fn tem(auditoria: &[AuditEntry], entity: AuditEntity, action: AuditAction) -> bool {
    auditoria.iter().any(|e| e.entity == entity && e.action == action)
}

#[test]
fn registra_atualiza_e_remove_usuario_gerando_auditoria() {
    let mut env = montar_ambiente();

    let register_output = RegisterUser::new(&mut env.usuarios, hasher_rapido())
        .execute(RegisterUserInput {
            email: "rodrigo@example.com".to_string(),
            password: "SenhaForte123".to_string(),
        })
        .expect("registro deveria funcionar");
    env.gravar();

    let login_output = AuthenticateUser::new(&mut env.usuarios, hasher_rapido(), Tokens)
        .execute(AuthenticateUserInput {
            email: "rodrigo@example.com".to_string(),
            password: "SenhaForte123".to_string(),
        })
        .expect("login deveria funcionar");
    assert!(!login_output.access_token.is_empty());

    let user_id = UserId::from_uuid(uuid_de(&register_output.user_id));

    let profile = GetCurrentUser::new(&mut env.usuarios)
        .execute(user_id)
        .expect("busca do usuario deveria funcionar");
    assert_eq!(profile.email, "rodrigo@example.com");

    UpdateUser::new(&mut env.usuarios)
        .execute(
            user_id,
            UpdateUserInput {
                email: "rodrigo.novo@example.com".to_string(),
            },
        )
        .expect("atualizacao deveria funcionar");
    env.gravar();

    DeleteUser::new(&mut env.usuarios)
        .execute(user_id)
        .expect("remocao deveria funcionar");
    env.gravar();

    let audit_log = &env.auditoria;
    assert!(
        tem(audit_log, AuditEntity::Usuario, AuditAction::Insert)
            && audit_log[0].entity.as_str() == "USUARIO"
            && audit_log[0].action.as_str() == "INSERT"
    );
    assert!(
        tem(audit_log, AuditEntity::Usuario, AuditAction::Update)
            && audit_log[1].action.as_str() == "UPDATE"
            && matches!(&audit_log[1].payload, AuditPayload::Usuario { email, .. } if email == "rodrigo.novo@example.com")
    );
    assert!(tem(audit_log, AuditEntity::Usuario, AuditAction::Delete) && audit_log[2].action.as_str() == "DELETE");
}

#[test]
fn update_user_falha_para_usuario_inexistente() {
    let mut env = montar_ambiente();
    let id_aleatorio = UserId::new();

    let result = UpdateUser::new(&mut env.usuarios).execute(
        id_aleatorio,
        UpdateUserInput {
            email: "ninguem@example.com".to_string(),
        },
    );

    assert!(result.is_err());
}

#[test]
fn cadastra_consulta_lista_atualiza_e_remove_cliente_gerando_auditoria() {
    let mut env = montar_ambiente();

    let cliente = RegisterCliente::new(&mut env.clientes)
        .execute(RegisterClienteInput {
            nome: "Rodrigo Furlaneti".to_string(),
            documento: "111.444.777-35".to_string(),
            email: "cliente@example.com".to_string(),
        })
        .expect("cadastro de cliente deveria funcionar");
    env.gravar();

    let cliente_id = ClienteId::from_uuid(uuid_de(&cliente.cliente_id));

    let found = GetCliente::new(&mut env.clientes)
        .execute(cliente_id)
        .expect("consulta deveria funcionar");
    assert_eq!(found.nome, "Rodrigo Furlaneti");

    let listed = ListClientes::new(&mut env.clientes)
        .execute()
        .expect("listagem deveria funcionar");
    assert_eq!(listed.clientes.len(), 1);

    UpdateCliente::new(&mut env.clientes)
        .execute(
            cliente_id,
            UpdateClienteInput {
                nome: "Rodrigo F.".to_string(),
                documento: "111.444.777-35".to_string(),
                email: "cliente-novo@example.com".to_string(),
            },
        )
        .expect("atualizacao deveria funcionar");
    env.gravar();

    DeleteCliente::new(&mut env.clientes)
        .execute(cliente_id)
        .expect("remocao deveria funcionar");
    env.gravar();

    let audit_log = &env.auditoria;
    assert!(
        tem(audit_log, AuditEntity::Cliente, AuditAction::Insert)
            && audit_log[0].entity.as_str() == "CLIENTE"
            && audit_log[0].action.as_str() == "INSERT"
    );
    assert!(
        tem(audit_log, AuditEntity::Cliente, AuditAction::Update)
            && matches!(&audit_log[1].payload, AuditPayload::Cliente { email, .. } if email == "cliente-novo@example.com")
    );
    assert!(tem(audit_log, AuditEntity::Cliente, AuditAction::Delete));
}

#[test]
fn rejeita_cadastro_de_cliente_com_documento_invalido() {
    let mut env = montar_ambiente();

    let result = RegisterCliente::new(&mut env.clientes).execute(RegisterClienteInput {
        nome: "Fulano".to_string(),
        documento: "111.111.111-11".to_string(),
        email: "fulano@example.com".to_string(),
    });

    assert!(result.is_err());
}

#[test]
fn rejeita_cadastro_de_cliente_com_documento_duplicado() {
    let mut env = montar_ambiente();

    let input = || RegisterClienteInput {
        nome: "Fulano".to_string(),
        documento: "111.444.777-35".to_string(),
        email: "fulano@example.com".to_string(),
    };

    RegisterCliente::new(&mut env.clientes)
        .execute(input())
        .expect("primeiro cadastro deveria funcionar");
    let second_attempt = RegisterCliente::new(&mut env.clientes).execute(input());

    assert!(second_attempt.is_err());
}

#[test]
fn delete_cliente_falha_para_cliente_inexistente() {
    let mut env = montar_ambiente();
    let id_aleatorio = ClienteId::new();

    let result = DeleteCliente::new(&mut env.clientes).execute(id_aleatorio);

    assert!(result.is_err());
}

#[test]
fn registra_autentica_atualiza_e_remove_usuario_gerando_auditoria() {
    let mut ambiente = montar_ambiente();

    let registro = RegisterUser::new(&mut ambiente.usuarios, hasher_rapido())
        .execute(RegisterUserInput {
            email: "rodrigo@example.com".to_string(),
            password: "SenhaForte123".to_string(),
        })
        .expect("registro deveria funcionar");
    ambiente.gravar();

    let login = AuthenticateUser::new(&mut ambiente.usuarios, hasher_rapido(), Tokens)
        .execute(AuthenticateUserInput {
            email: "rodrigo@example.com".to_string(),
            password: "SenhaForte123".to_string(),
        })
        .expect("login deveria funcionar");
    assert!(!login.access_token.is_empty());

    let user_id = UserId::from_uuid(uuid_de(&registro.user_id));

    UpdateUser::new(&mut ambiente.usuarios)
        .execute(
            user_id,
            UpdateUserInput {
                email: "rodrigo.novo@example.com".to_string(),
            },
        )
        .expect("atualizacao deveria funcionar");
    ambiente.gravar();

    DeleteUser::new(&mut ambiente.usuarios)
        .execute(user_id)
        .expect("remocao deveria funcionar");
    ambiente.gravar();

    let auditoria = &ambiente.auditoria;
    assert!(
        tem(auditoria, AuditEntity::Usuario, AuditAction::Insert)
            && tem(auditoria, AuditEntity::Usuario, AuditAction::Update)
    );
    assert!(matches!(&auditoria[1].payload, AuditPayload::Usuario { email, .. } if email == "rodrigo.novo@example.com"));
    assert!(tem(auditoria, AuditEntity::Usuario, AuditAction::Delete));
}

#[test]
fn cadastra_e_remove_cliente_gerando_auditoria() {
    let mut ambiente = montar_ambiente();

    let cliente = RegisterCliente::new(&mut ambiente.clientes)
        .execute(RegisterClienteInput {
            nome: "Rodrigo Furlaneti".to_string(),
            documento: "111.444.777-35".to_string(),
            email: "cliente@example.com".to_string(),
        })
        .expect("cadastro deveria funcionar");
    ambiente.gravar();

    let cliente_id = ClienteId::from_uuid(uuid_de(&cliente.cliente_id));
    DeleteCliente::new(&mut ambiente.clientes)
        .execute(cliente_id)
        .expect("remocao deveria funcionar");
    ambiente.gravar();

    let auditoria = &ambiente.auditoria;
    assert!(tem(auditoria, AuditEntity::Cliente, AuditAction::Insert));
    assert!(tem(auditoria, AuditEntity::Cliente, AuditAction::Delete));
}

// ---------------------------------------------------------------------
// Casos a mais: regras dos casos de uso de usuario e cliente.
// ---------------------------------------------------------------------

#[test]
fn login_com_email_desconhecido_ou_senha_errada_da_o_mesmo_erro() {
    let mut env = montar_ambiente();
    RegisterUser::new(&mut env.usuarios, hasher_rapido())
        .execute(RegisterUserInput {
            email: "rodrigo@example.com".to_string(),
            password: "SenhaForte123".to_string(),
        })
        .expect("registro deveria funcionar");

    let senha_errada = AuthenticateUser::new(&mut env.usuarios, hasher_rapido(), Tokens).execute(AuthenticateUserInput {
        email: "rodrigo@example.com".to_string(),
        password: "OutraSenha123".to_string(),
    });
    let email_desconhecido = AuthenticateUser::new(&mut env.usuarios, hasher_rapido(), Tokens).execute(AuthenticateUserInput {
        email: "ninguem@example.com".to_string(),
        password: "SenhaForte123".to_string(),
    });

    assert!(matches!(senha_errada, Err(ApplicationError::Domain(DomainError::InvalidCredentials))));
    assert!(matches!(email_desconhecido, Err(ApplicationError::Domain(DomainError::InvalidCredentials))));
}

#[test]
fn cadastro_publico_de_usuario_tem_papel_comum_e_email_unico() {
    let mut env = montar_ambiente();
    let saida = RegisterUser::new(&mut env.usuarios, hasher_rapido())
        .execute(RegisterUserInput {
            email: "  rodrigo@example.com ".to_string(),
            password: "SenhaForte123".to_string(),
        })
        .expect("registro deveria funcionar");
    assert_eq!(saida.role, "user");
    assert_eq!(saida.email, "rodrigo@example.com");

    let repetido = RegisterUser::new(&mut env.usuarios, hasher_rapido()).execute(RegisterUserInput {
        email: "rodrigo@example.com".to_string(),
        password: "SenhaForte123".to_string(),
    });
    assert!(matches!(repetido, Err(ApplicationError::Domain(DomainError::UserAlreadyExists))));

    let fraca = RegisterUser::new(&mut env.usuarios, hasher_rapido()).execute(RegisterUserInput {
        email: "outro@example.com".to_string(),
        password: "fraca".to_string(),
    });
    assert!(matches!(fraca, Err(ApplicationError::Domain(DomainError::WeakPassword))));

    let email_invalido = RegisterUser::new(&mut env.usuarios, hasher_rapido()).execute(RegisterUserInput {
        email: "sem-arroba".to_string(),
        password: "SenhaForte123".to_string(),
    });
    assert!(matches!(email_invalido, Err(ApplicationError::Domain(DomainError::InvalidEmail))));
}

#[test]
fn senha_guardada_e_o_hash_nunca_o_texto() {
    let mut env = montar_ambiente();
    let saida = RegisterUser::new(&mut env.usuarios, hasher_rapido())
        .execute(RegisterUserInput {
            email: "rodrigo@example.com".to_string(),
            password: "SenhaForte123".to_string(),
        })
        .expect("registro deveria funcionar");
    let user = env
        .usuarios
        .find_by_id(uuid_de(&saida.user_id))
        .expect("usuario guardado");
    assert_ne!(user.password_hash().as_str(), "SenhaForte123");
    assert!(bcrypt::verify("SenhaForte123", user.password_hash().as_str()).unwrap());
}

#[test]
fn get_current_user_de_usuario_removido_e_credencial_invalida() {
    let mut env = montar_ambiente();
    let r = GetCurrentUser::new(&mut env.usuarios).execute(UserId::new());
    assert!(matches!(r, Err(ApplicationError::Domain(DomainError::InvalidCredentials))));
}

#[test]
fn update_cliente_recusa_documento_de_outro_cliente() {
    let mut env = montar_ambiente();
    let primeiro = RegisterCliente::new(&mut env.clientes)
        .execute(RegisterClienteInput {
            nome: "Fulano".to_string(),
            documento: "111.444.777-35".to_string(),
            email: "fulano@example.com".to_string(),
        })
        .unwrap();
    let segundo = RegisterCliente::new(&mut env.clientes)
        .execute(RegisterClienteInput {
            nome: "Beltrano".to_string(),
            documento: "529.982.247-25".to_string(),
            email: "beltrano@example.com".to_string(),
        })
        .unwrap();
    assert_eq!(primeiro.documento, "11144477735");

    let r = UpdateCliente::new(&mut env.clientes).execute(
        ClienteId::from_uuid(uuid_de(&segundo.cliente_id)),
        UpdateClienteInput {
            nome: "Beltrano".to_string(),
            documento: "111.444.777-35".to_string(),
            email: "beltrano@example.com".to_string(),
        },
    );
    assert!(matches!(r, Err(ApplicationError::Domain(DomainError::ClienteAlreadyExists))));

    let inexistente = UpdateCliente::new(&mut env.clientes).execute(
        ClienteId::new(),
        UpdateClienteInput {
            nome: "Beltrano".to_string(),
            documento: "529.982.247-25".to_string(),
            email: "beltrano@example.com".to_string(),
        },
    );
    assert!(matches!(inexistente, Err(ApplicationError::Domain(DomainError::ClienteNotFound))));
}

#[test]
fn escrita_recusada_nao_gera_registro_de_auditoria() {
    let mut env = montar_ambiente();
    let r = DeleteCliente::new(&mut env.clientes).execute(ClienteId::new());
    assert!(r.is_err());
    assert!(env.clientes.take_registros().is_empty());
}
