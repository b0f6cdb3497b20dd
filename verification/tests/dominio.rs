use cadastro_api::application::audit_logger::{
    AuditAction, AuditEntity, AuditEntry, AuditPayload, ItemPedidoSnapshot,
};
use cadastro_api::application::cliente::register_cliente::RegisterCliente;
use cadastro_api::application::dto::{
    AuthenticateUserInput, ItemPedidoInput, RegisterClienteInput, RegisterPedidoInput, RegisterProdutoInput,
    RegisterUserInput,
};
use cadastro_api::application::pedido::register_pedido::RegisterPedido;
use cadastro_api::application::produto::register_produto::RegisterProduto;
use cadastro_api::application::errors::ApplicationError;
use cadastro_api::application::token_service::{
    claims_do_token, expiracao, AccessToken, TokenClaims, TokenService,
};
use cadastro_api::application::usuario::authenticate_user::AuthenticateUser;
use cadastro_api::application::usuario::register_user::RegisterUser;
use cadastro_api::application::usuario::seed_admin::{seed_default_admin, seed_default_admin_com_id};
use cadastro_api::domain::cliente::Cliente;
use cadastro_api::domain::cpf::Cpf;
use cadastro_api::domain::dinheiro::Dinheiro;
use cadastro_api::domain::email::Email;
use cadastro_api::domain::errors::DomainError;
use cadastro_api::domain::nome::Nome;
use cadastro_api::domain::password::{HashedPassword, PasswordHasher, PlainPassword};
use cadastro_api::domain::pedido::{ItemPedido, Pedido};
use cadastro_api::domain::produto::Produto;
use cadastro_api::domain::quantidade::Quantidade;
use cadastro_api::domain::role::Role;
use cadastro_api::domain::user::User;
use cadastro_api::ids::{uuid_to_string, ClienteId, PedidoId, ProdutoId, UserId};
use cadastro_api::infra::audit_log_replayer::{AuditLogReplayer, LinhaAuditoria};
use cadastro_api::infra::audited::AuditedRepository;
use cadastro_api::infra::bcrypt_hasher::BcryptPasswordHasher;
use cadastro_api::infra::cache::CacheRepository;
use cadastro_api::infra::repositories::{
    AuditedProdutoRepository, CacheClienteRepository, CachePedidoRepository, CacheProdutoRepository,
    CacheUserRepository,
};
use cadastro_api::presentation::auth::{bearer_token, ensure_admin};
use cadastro_api::presentation::error_response::ApiError;
use cadastro_api::presentation::path_id::parse_uuid_path;

/// Hasher de teste: o "hash" e a senha invertida.
struct Invertida;

impl PasswordHasher for Invertida {
    fn hash(&self, password: &PlainPassword) -> HashedPassword {
        HashedPassword::from_hash(password.expose().chars().rev().collect())
    }

    fn verify(&self, candidate: &PlainPassword, hash: &HashedPassword) -> bool {
        candidate.expose().chars().rev().collect::<String>() == hash.as_str()
    }
}

// ---------------------------------------------------------------------
// Value objects
// ---------------------------------------------------------------------

#[test]
fn nome_e_aparado_e_precisa_de_dois_caracteres() {
    assert_eq!(Nome::parse("  Teclado  ").unwrap().as_str(), "Teclado");
    assert!(matches!(Nome::parse(" a "), Err(DomainError::InvalidNome)));
    assert!(matches!(Nome::parse("   "), Err(DomainError::InvalidNome)));
    assert_eq!(Nome::parse("Jo").unwrap().as_str(), "Jo");
    let n = Nome::parse(" Mouse ").unwrap();
    assert_eq!(Nome::parse(n.as_str()).unwrap().as_str(), n.as_str());
}

#[test]
fn email_precisa_de_arroba_e_dominio_com_ponto() {
    assert_eq!(Email::parse(" rodrigo@example.com ").unwrap().as_str(), "rodrigo@example.com");
    assert!(matches!(Email::parse("rodrigo.example.com"), Err(DomainError::InvalidEmail)));
    assert!(matches!(Email::parse("@example.com"), Err(DomainError::InvalidEmail)));
    assert!(matches!(Email::parse("a@@example.com"), Err(DomainError::InvalidEmail)));
    assert!(matches!(Email::parse("a@example"), Err(DomainError::InvalidEmail)));
    assert!(matches!(Email::parse("a b@example.com"), Err(DomainError::InvalidEmail)));
}

#[test]
fn cpf_confere_digitos_verificadores() {
    assert_eq!(Cpf::parse("111.444.777-35").unwrap().as_str(), "11144477735");
    assert_eq!(Cpf::parse("11144477735").unwrap().as_str(), "11144477735");
    assert!(matches!(Cpf::parse("111.444.777-36"), Err(DomainError::InvalidDocument)));
    assert!(matches!(Cpf::parse("111.111.111-11"), Err(DomainError::InvalidDocument)));
    assert!(matches!(Cpf::parse("111.444.777-3"), Err(DomainError::InvalidDocument)));
    assert!(matches!(Cpf::parse("111 444 777 35"), Err(DomainError::InvalidDocument)));
}

#[test]
fn senha_forte_exige_tamanho_maiuscula_minuscula_e_digito() {
    assert_eq!(PlainPassword::parse("SenhaForte123").unwrap().expose(), "SenhaForte123");
    assert!(matches!(PlainPassword::parse("Curta1"), Err(DomainError::WeakPassword)));
    assert!(matches!(PlainPassword::parse("semmaiuscula1"), Err(DomainError::WeakPassword)));
    assert!(matches!(PlainPassword::parse("SEMMINUSCULA1"), Err(DomainError::WeakPassword)));
    assert!(matches!(PlainPassword::parse("SemDigitos"), Err(DomainError::WeakPassword)));
}

#[test]
fn senha_conta_caracteres_e_nao_bytes() {
    // 7 caracteres, 11 bytes: curta demais.
    assert!(matches!(PlainPassword::parse("Ação1éé"), Err(DomainError::WeakPassword)));
    // 8 caracteres com acentos: aceita.
    assert_eq!(PlainPassword::parse("Ação1éék").unwrap().expose(), "Ação1éék");
}

#[test]
fn dinheiro_le_e_escreve_reais_em_centavos() {
    assert_eq!(Dinheiro::parse_reais("100.00").unwrap().as_centavos(), 10000);
    assert_eq!(Dinheiro::parse_reais(" 19.9 ").unwrap().as_centavos(), 1990);
    assert_eq!(Dinheiro::parse_reais("7").unwrap().as_centavos(), 700);
    assert_eq!(Dinheiro::parse_reais("0.05").unwrap().as_centavos(), 5);
    assert!(matches!(Dinheiro::parse_reais("-1"), Err(DomainError::ValorMonetarioInvalido)));
    assert!(matches!(Dinheiro::parse_reais("1.234"), Err(DomainError::ValorMonetarioInvalido)));
    assert!(matches!(Dinheiro::parse_reais("abc"), Err(DomainError::ValorMonetarioInvalido)));
    assert!(matches!(Dinheiro::parse_reais("1."), Err(DomainError::ValorMonetarioInvalido)));
    assert!(matches!(
        Dinheiro::parse_reais("92233720368547758.08"),
        Err(DomainError::ValorMonetarioInvalido)
    ));
    assert_eq!(
        Dinheiro::parse_reais("92233720368547758.07").unwrap().as_centavos(),
        i64::MAX
    );
    assert_eq!(Dinheiro::from_centavos(12345).unwrap().as_reais_str(), "123.45");
    assert_eq!(Dinheiro::from_centavos(5).unwrap().as_reais_str(), "0.05");
    assert_eq!(Dinheiro::zero().as_reais_str(), "0.00");
    assert!(matches!(Dinheiro::from_centavos(-1), Err(DomainError::ValorMonetarioInvalido)));
    let d = Dinheiro::from_centavos(987654).unwrap();
    assert_eq!(Dinheiro::parse_reais(&d.as_reais_str()).unwrap().as_centavos(), 987654);
}

#[test]
fn dinheiro_multiplica_e_soma_sem_estourar() {
    let d = Dinheiro::from_centavos(10000).unwrap();
    assert_eq!(d.vezes(3).unwrap().as_centavos(), 30000);
    assert_eq!(d.somar(&Dinheiro::from_centavos(5).unwrap()).unwrap().as_centavos(), 10005);
    let grande = Dinheiro::from_centavos(i64::MAX).unwrap();
    assert!(matches!(grande.vezes(2), Err(DomainError::ValorMonetarioInvalido)));
    assert!(matches!(grande.somar(&d), Err(DomainError::ValorMonetarioInvalido)));
}

#[test]
fn quantidade_precisa_ser_positiva() {
    assert_eq!(Quantidade::parse(3).unwrap().valor(), 3);
    assert!(matches!(Quantidade::parse(0), Err(DomainError::InvalidQuantidade)));
}

#[test]
fn papel_tem_nome_e_e_lido_de_volta() {
    assert_eq!(Role::User.as_str(), "user");
    assert_eq!(Role::Admin.as_str(), "admin");
    assert_eq!(Role::parse("admin"), Some(Role::Admin));
    assert_eq!(Role::parse(Role::User.as_str()), Some(Role::User));
    assert_eq!(Role::parse("Admin"), None);
}

#[test]
fn mensagens_de_erro_de_dominio() {
    assert_eq!(DomainError::InvalidCredentials.message(), "credenciais invalidas");
    assert_eq!(DomainError::PedidoSemItens.message(), "pedido precisa ter pelo menos um item");
    assert_eq!(
        ApplicationError::Domain(DomainError::ClienteNotFound).message(),
        "cliente nao encontrado"
    );
    assert_eq!(ApplicationError::Unexpected("falhou".to_string()).message(), "falhou");
}

// ---------------------------------------------------------------------
// Identificadores
// ---------------------------------------------------------------------

#[test]
fn texto_de_uuid_e_o_canonico_e_e_lido_de_volta() {
    let u = uuid::Uuid::new_v4();
    assert_eq!(uuid_to_string(u.as_u128()), u.to_string());
    assert_eq!(parse_uuid_path(&uuid_to_string(u.as_u128())).unwrap(), u.as_u128());
    assert_eq!(uuid_to_string(0), "00000000-0000-0000-0000-000000000000");
    assert_eq!(
        uuid_to_string(0x0123456789abcdef0123456789abcdef),
        "01234567-89ab-cdef-0123-456789abcdef"
    );
    assert!(parse_uuid_path("nao-e-uuid").is_err());
    assert_eq!(
        parse_uuid_path("01234567-89AB-CDEF-0123-456789ABCDEF").unwrap(),
        0x0123456789abcdef0123456789abcdef
    );
}

#[test]
fn id_de_rota_invalido_e_400() {
    let u = uuid::Uuid::new_v4();
    assert_eq!(parse_uuid_path(&u.to_string()).unwrap(), u.as_u128());
    let erro = parse_uuid_path("abc").unwrap_err();
    assert_eq!(erro.status_and_message().0, 400);
    assert!(matches!(erro, ApiError(ApplicationError::Domain(DomainError::InvalidId))));
}

#[test]
fn ids_novos_sao_distintos() {
    assert_ne!(UserId::new().as_uuid(), UserId::new().as_uuid());
    assert_eq!(ClienteId::from_uuid(7).as_uuid(), 7);
    assert_eq!(ProdutoId::from_uuid(8).as_uuid(), 8);
    assert_eq!(PedidoId::from_uuid(9).as_uuid(), 9);
}

fn e_uuid_v4(u: u128) {
    assert_eq!((u >> 76) & 0xf, 4);
    assert_eq!((u >> 62) & 0x3, 2);
    let texto: Vec<char> = uuid_to_string(u).chars().collect();
    assert_eq!(texto[14], '4');
    assert!(matches!(texto[19], '8' | '9' | 'a' | 'b'));
}

#[test]
fn ids_novos_sao_uuid_v4() {
    for _ in 0..20 {
        e_uuid_v4(UserId::new().as_uuid());
        e_uuid_v4(ClienteId::new().as_uuid());
        e_uuid_v4(ProdutoId::new().as_uuid());
        e_uuid_v4(PedidoId::new().as_uuid());
    }
}

// ---------------------------------------------------------------------
// Apresentacao
// ---------------------------------------------------------------------

#[test]
fn status_http_de_cada_erro() {
    let status = |e: DomainError| ApiError::status_for_domain_error(&e).0;
    assert_eq!(status(DomainError::InvalidEmail), 400);
    assert_eq!(status(DomainError::WeakPassword), 400);
    assert_eq!(status(DomainError::InvalidNome), 400);
    assert_eq!(status(DomainError::InvalidDocument), 400);
    assert_eq!(status(DomainError::InvalidId), 400);
    assert_eq!(status(DomainError::ValorMonetarioInvalido), 400);
    assert_eq!(status(DomainError::InvalidQuantidade), 400);
    assert_eq!(status(DomainError::PedidoSemItens), 400);
    assert_eq!(status(DomainError::UserAlreadyExists), 409);
    assert_eq!(status(DomainError::ClienteAlreadyExists), 409);
    assert_eq!(status(DomainError::ProdutoAlreadyExists), 409);
    assert_eq!(status(DomainError::PedidoAlreadyExists), 409);
    assert_eq!(status(DomainError::InvalidCredentials), 401);
    assert_eq!(status(DomainError::PermissionDenied), 403);
    assert_eq!(status(DomainError::UserNotFound), 404);
    assert_eq!(status(DomainError::ClienteNotFound), 404);
    assert_eq!(status(DomainError::ProdutoNotFound), 404);
    assert_eq!(status(DomainError::PedidoNotFound), 404);

    let inesperado = ApiError::from(ApplicationError::Unexpected("boom".to_string()));
    assert_eq!(inesperado.status_and_message(), (500, "boom".to_string()));
    assert_eq!(inesperado.body().error, "boom");
    let conflito = ApiError(ApplicationError::Domain(DomainError::UserAlreadyExists));
    assert_eq!(conflito.body().error, DomainError::UserAlreadyExists.message());
}

#[test]
fn token_bearer_e_papel_de_administrador() {
    assert_eq!(bearer_token("Bearer abc.def").unwrap(), "abc.def");
    assert!(bearer_token("Bearer ").is_err());
    assert!(bearer_token("Basic abc").is_err());
    let erro = bearer_token("abc").unwrap_err();
    assert_eq!(erro.status_and_message().0, 401);
    assert!(ensure_admin(Role::Admin).is_ok());
    assert_eq!(ensure_admin(Role::User).unwrap_err().status_and_message().0, 403);
}

// ---------------------------------------------------------------------
// Pedido e itens
// ---------------------------------------------------------------------

#[test]
fn item_congela_preco_e_pedido_soma_os_itens() {
    let nome = Nome::parse("Mouse").unwrap();
    let preco = Dinheiro::parse_reais("50.00").unwrap();
    let item = ItemPedido::snapshot_no_momento_do_pedido(
        ProdutoId::new(),
        nome,
        Quantidade::parse(3).unwrap(),
        preco,
    )
    .unwrap();
    assert_eq!(item.valor_total().as_reais_str(), "150.00");
    let outro = ItemPedido::snapshot_no_momento_do_pedido(
        ProdutoId::new(),
        Nome::parse("Teclado").unwrap(),
        Quantidade::parse(1).unwrap(),
        Dinheiro::parse_reais("0.99").unwrap(),
    )
    .unwrap();
    let pedido = Pedido::register(ClienteId::new(), vec![item, outro]).unwrap();
    assert_eq!(pedido.valor_total().as_reais_str(), "150.99");
    assert!(matches!(Pedido::register(ClienteId::new(), vec![]), Err(DomainError::PedidoSemItens)));
    let caro = ItemPedido::snapshot_no_momento_do_pedido(
        ProdutoId::new(),
        Nome::parse("Caro").unwrap(),
        Quantidade::parse(2).unwrap(),
        Dinheiro::from_centavos(i64::MAX).unwrap(),
    );
    assert!(matches!(caro, Err(DomainError::ValorMonetarioInvalido)));
}

// ---------------------------------------------------------------------
// Auditoria e reidratacao
// ---------------------------------------------------------------------

#[test]
fn linha_do_arquivo_e_aparada_e_linha_em_branco_nao_e_evento() {
    assert_eq!(AuditEntry::frame_log_line("  {\"a\":1}  \r").unwrap(), "{\"a\":1}");
    assert!(AuditEntry::frame_log_line("   \t ").is_none());
    assert!(AuditEntry::frame_log_line("").is_none());
}

#[test]
fn registro_de_auditoria_tem_instante_rfc3339() {
    let e = AuditEntry::new(
        AuditEntity::Produto,
        AuditAction::Delete,
        "x".to_string(),
        AuditPayload::Removido,
    );
    assert!(chrono::DateTime::parse_from_rfc3339(&e.occurred_at).is_ok());
    assert!(e.occurred_at.ends_with("+00:00"));
    let c: Vec<char> = e.occurred_at.chars().collect();
    assert_eq!((c[4], c[7], c[10], c[13], c[16]), ('-', '-', 'T', ':', ':'));
    assert!([25, 29, 32, 35].contains(&c.len()));
    assert_eq!(e.entity.as_str(), "PRODUTO");
    assert_eq!(AuditEntity::Pedido.as_str(), "PEDIDO");
    assert_eq!(AuditAction::Update.as_str(), "UPDATE");
}

#[test]
fn repositorio_auditado_registra_cada_escrita_aceita() {
    let mut produtos: AuditedProdutoRepository = AuditedRepository::new(CacheRepository::new());
    let p = Produto::register(Nome::parse("Mouse").unwrap(), Dinheiro::parse_reais("50").unwrap());
    produtos.save(&p).unwrap();
    assert!(matches!(produtos.save(&p), Err(DomainError::ProdutoAlreadyExists)));
    let p2 = p.duplicate().with_updated_data(Nome::parse("Mouse sem fio").unwrap(), Dinheiro::parse_reais("60").unwrap());
    produtos.update(&p2).unwrap();
    produtos.delete(p.id().as_uuid()).unwrap();
    assert!(matches!(produtos.delete(p.id().as_uuid()), Err(DomainError::ProdutoNotFound)));
    let registros = produtos.take_registros();
    assert_eq!(registros.len(), 3);
    assert_eq!(registros[0].action, AuditAction::Insert);
    assert_eq!(registros[1].action, AuditAction::Update);
    assert_eq!(registros[2].action, AuditAction::Delete);
    assert_eq!(registros[0].aggregate_id, uuid_to_string(p.id().as_uuid()));
    assert!(matches!(&registros[1].payload, AuditPayload::Produto { nome, preco_centavos: 6000 } if nome == "Mouse sem fio"));
    assert!(matches!(registros[2].payload, AuditPayload::Removido));
    assert!(produtos.take_registros().is_empty());
    assert!(produtos.list_all().is_empty());
}

fn caches() -> (CacheUserRepository, CacheClienteRepository, CacheProdutoRepository, CachePedidoRepository) {
    (CacheRepository::new(), CacheRepository::new(), CacheRepository::new(), CacheRepository::new())
}

#[test]
fn replay_conta_eventos_e_linhas_ilegiveis_e_avisa_o_que_ignorou() {
    let cliente = Cliente::register(
        Nome::parse("Fulano").unwrap(),
        Cpf::parse("111.444.777-35").unwrap(),
        Email::parse("fulano@example.com").unwrap(),
    );
    let id = uuid_to_string(cliente.id().as_uuid());
    let insert = |id: &str| {
        LinhaAuditoria::Evento(AuditEntry::new(
            AuditEntity::Cliente,
            AuditAction::Insert,
            id.to_string(),
            AuditPayload::Cliente {
                nome: "Fulano".to_string(),
                documento: "11144477735".to_string(),
                email: "fulano@example.com".to_string(),
            },
        ))
    };
    let linhas = vec![
        insert(&id),
        LinhaAuditoria::EmBranco,
        LinhaAuditoria::Malformada,
        insert(&id),
        insert("nao-e-uuid"),
        LinhaAuditoria::Evento(AuditEntry::new(
            AuditEntity::Pedido,
            AuditAction::Delete,
            uuid_to_string(42),
            AuditPayload::Removido,
        )),
        LinhaAuditoria::Evento(AuditEntry::new(
            AuditEntity::Produto,
            AuditAction::Insert,
            uuid_to_string(43),
            AuditPayload::Removido,
        )),
    ];
    let (mut u, mut c, mut p, mut o) = caches();
    let resumo = AuditLogReplayer::replay(&linhas, &mut u, &mut c, &mut p, &mut o);
    assert_eq!(resumo.eventos_aplicados, 5);
    assert_eq!(resumo.linhas_ignoradas, 1);
    assert_eq!(resumo.avisos.len(), 4);
    assert_eq!(resumo.avisos[0].motivo, DomainError::ClienteAlreadyExists.message());
    assert_eq!(resumo.avisos[1].motivo, "id invalido no log de auditoria: nao-e-uuid");
    assert_eq!(resumo.avisos[2].motivo, DomainError::PedidoNotFound.message());
    assert_eq!(resumo.avisos[2].entity, AuditEntity::Pedido);
    assert_eq!(resumo.avisos[3].motivo, "payload de produto ausente ou invalido");
    let reidratado = c.find_by_id(cliente.id().as_uuid()).unwrap();
    assert_eq!(reidratado.documento().as_str(), "11144477735");
    assert_eq!(c.list_all().len(), 1);
}

#[test]
fn replay_de_pedido_trata_update_como_cadastro() {
    let item = ItemPedidoSnapshot {
        produto_id: uuid_to_string(7),
        nome_produto: "Mouse".to_string(),
        quantidade: 2,
        valor_unitario_centavos: 500,
        valor_total_centavos: 1000,
    };
    let linhas = vec![LinhaAuditoria::Evento(AuditEntry::new(
        AuditEntity::Pedido,
        AuditAction::Update,
        uuid_to_string(99),
        AuditPayload::Pedido {
            cliente_id: uuid_to_string(5),
            itens: vec![item],
            valor_total_centavos: 1000,
        },
    ))];
    let (mut u, mut c, mut p, mut o) = caches();
    let resumo = AuditLogReplayer::replay(&linhas, &mut u, &mut c, &mut p, &mut o);
    assert!(resumo.avisos.is_empty());
    let pedido = o.find_by_id(99).unwrap();
    assert_eq!(pedido.cliente_id().as_uuid(), 5);
    assert_eq!(pedido.itens()[0].produto_id().as_uuid(), 7);
    assert_eq!(pedido.valor_total().as_reais_str(), "10.00");
}

#[test]
fn reconstrucao_recusa_snapshot_com_campo_invalido() {
    let r = AuditLogReplayer::reconstruir_item(&ItemPedidoSnapshot {
        produto_id: uuid_to_string(1),
        nome_produto: "Mouse".to_string(),
        quantidade: 0,
        valor_unitario_centavos: 1,
        valor_total_centavos: 0,
    });
    assert_eq!(r.err().unwrap(), DomainError::InvalidQuantidade.message());
    let u = AuditLogReplayer::reconstruir_usuario(
        UserId::from_uuid(1),
        &AuditPayload::Usuario {
            email: "a@b.co".to_string(),
            password_hash: "h".to_string(),
            role: "root".to_string(),
        },
    );
    assert_eq!(u.err().unwrap(), "role desconhecida no replay");
    let p = AuditLogReplayer::reconstruir_produto(
        ProdutoId::from_uuid(1),
        &AuditPayload::Produto { nome: "Mouse".to_string(), preco_centavos: -5 },
    );
    assert_eq!(p.err().unwrap(), DomainError::ValorMonetarioInvalido.message());
}

#[test]
fn administrador_de_exemplo_e_semeado_uma_vez() {
    let mut usuarios: CacheUserRepository = CacheRepository::new();
    assert_eq!(seed_default_admin(&mut usuarios, &Invertida, "admin@example.com", "AdminForte123"), Ok(true));
    assert_eq!(seed_default_admin(&mut usuarios, &Invertida, "admin@example.com", "AdminForte123"), Ok(false));
    let admin = usuarios.find_by_email(&Email::parse("admin@example.com").unwrap()).unwrap();
    assert_eq!(admin.role(), Role::Admin);
    assert_eq!(admin.password_hash().as_str(), "321etroFnimdA");
    assert_eq!(seed_default_admin(&mut usuarios, &Invertida, "sem-arroba", "AdminForte123"), Err(DomainError::InvalidEmail));
    assert_eq!(seed_default_admin(&mut usuarios, &Invertida, "outro@example.com", "fraca"), Err(DomainError::WeakPassword));
}

#[test]
fn login_decide_pela_senha_e_pelo_token_emitido() {
    type Login = AuthenticateUser<CacheUserRepository, Invertida, SemTokens>;
    assert!(Login::ensure_password_matches(true).is_ok());
    assert!(matches!(
        Login::ensure_password_matches(false),
        Err(ApplicationError::Domain(DomainError::InvalidCredentials))
    ));
    assert_eq!(Login::token_emitido(Ok(AccessToken("abc".to_string()))).unwrap().0, "abc");
    assert!(matches!(
        Login::token_emitido(Err("sem chave".to_string())),
        Err(ApplicationError::Unexpected(m)) if m == "sem chave"
    ));
}

/// Servico de tokens que sempre falha.
struct SemTokens;

impl TokenService for SemTokens {
    fn issue(
        &self,
        _user_id: UserId,
        _role: Role,
    ) -> Result<AccessToken, String> {
        Err("sem chave".to_string())
    }

    fn verify(&self, _token: &str) -> Result<TokenClaims, String> {
        Err("sem chave".to_string())
    }
}

#[test]
fn falha_do_servico_de_tokens_e_erro_inesperado_500() {
    let mut usuarios: CacheUserRepository = CacheRepository::new();
    RegisterUser::new(&mut usuarios, Invertida)
        .execute(RegisterUserInput { email: "a@example.com".to_string(), password: "SenhaForte123".to_string() })
        .unwrap();
    let r = AuthenticateUser::new(&mut usuarios, Invertida, SemTokens)
        .execute(AuthenticateUserInput { email: "a@example.com".to_string(), password: "SenhaForte123".to_string() });
    let erro = ApiError::from(r.unwrap_err());
    assert_eq!(erro.status_and_message(), (500, "sem chave".to_string()));
}

/// Servico de tokens de teste: o token diz para quem e com que papel foi emitido.
struct TokenComPapel;

impl TokenService for TokenComPapel {
    fn issue(&self, user_id: UserId, role: Role) -> Result<AccessToken, String> {
        Ok(AccessToken(format!("{}:{}", uuid_to_string(user_id.as_uuid()), role.as_str())))
    }

    fn verify(&self, _token: &str) -> Result<TokenClaims, String> {
        Err("nao usado".to_string())
    }
}

#[test]
fn token_e_pedido_para_o_proprio_usuario() {
    let mut usuarios: CacheUserRepository = CacheRepository::new();
    let hash = Invertida.hash(&PlainPassword::parse("SenhaForte123").unwrap());
    let user = User::register_with_role(Email::parse("b@example.com").unwrap(), hash, Role::Admin);
    let esperado = format!("{}:admin", uuid_to_string(user.id().as_uuid()));
    let login = AuthenticateUser::new(&mut usuarios, Invertida, TokenComPapel);
    assert_eq!(login.issue_token_for(&user).unwrap().0, esperado);
    let sem = AuthenticateUser::new(&mut usuarios, Invertida, SemTokens);
    assert!(matches!(
        sem.issue_token_for(&user),
        Err(ApplicationError::Unexpected(m)) if m == "sem chave"
    ));
}

#[test]
fn senha_conferida_pelo_hasher() {
    let hash = Invertida.hash(&PlainPassword::parse("SenhaForte123").unwrap());
    let user = User::register(Email::parse("c@example.com").unwrap(), hash);
    assert!(user.matches_password(&PlainPassword::parse("SenhaForte123").unwrap(), &Invertida));
    assert!(!user.matches_password(&PlainPassword::parse("OutraSenha456").unwrap(), &Invertida));
}

#[test]
fn cadastro_com_identidade_ja_usada_e_recusado_sem_mudar_nada() {
    let (mut u, mut c, mut p, mut o) = caches();
    let cliente = RegisterCliente::new(&mut c)
        .execute_com_id(
            RegisterClienteInput {
                nome: "Fulano".to_string(),
                documento: "111.444.777-35".to_string(),
                email: "fulano@example.com".to_string(),
            },
            ClienteId::from_uuid(1),
        )
        .unwrap();
    assert_eq!(cliente.cliente_id, uuid_to_string(1));
    let repetido = RegisterCliente::new(&mut c).execute_com_id(
        RegisterClienteInput {
            nome: "Ciclano".to_string(),
            documento: "529.982.247-25".to_string(),
            email: "ciclano@example.com".to_string(),
        },
        ClienteId::from_uuid(1),
    );
    assert!(matches!(repetido, Err(ApplicationError::Domain(DomainError::ClienteAlreadyExists))));
    assert_eq!(c.list_all().len(), 1);

    let produto = RegisterProduto::new(&mut p)
        .execute_com_id(
            RegisterProdutoInput { nome: "Teclado".to_string(), preco: "100.00".to_string() },
            ProdutoId::from_uuid(2),
        )
        .unwrap();
    assert_eq!(produto.produto_id, uuid_to_string(2));
    let repetido = RegisterProduto::new(&mut p).execute_com_id(
        RegisterProdutoInput { nome: "Mouse".to_string(), preco: "50.00".to_string() },
        ProdutoId::from_uuid(2),
    );
    assert!(matches!(repetido, Err(ApplicationError::Domain(DomainError::ProdutoAlreadyExists))));
    assert_eq!(p.find_by_id(2).unwrap().nome().as_str(), "Teclado");

    let entrada = || RegisterPedidoInput {
        cliente_id: uuid_to_string(1),
        itens: vec![ItemPedidoInput { produto_id: uuid_to_string(2), quantidade: 2 }],
    };
    let pedido = RegisterPedido::new(&mut c, &mut p, &mut o)
        .execute_com_id(entrada(), PedidoId::from_uuid(3))
        .unwrap();
    assert_eq!(pedido.valor_total, "200.00");
    let repetido = RegisterPedido::new(&mut c, &mut p, &mut o).execute_com_id(entrada(), PedidoId::from_uuid(3));
    assert!(matches!(repetido, Err(ApplicationError::Domain(DomainError::PedidoAlreadyExists))));
    assert_eq!(o.list_all().len(), 1);

    let usuario = RegisterUser::new(&mut u, Invertida)
        .execute_com_id(
            RegisterUserInput { email: "a@example.com".to_string(), password: "SenhaForte123".to_string() },
            UserId::from_uuid(4),
        )
        .unwrap();
    assert_eq!(usuario.user_id, uuid_to_string(4));
    let repetido = RegisterUser::new(&mut u, Invertida).execute_com_id(
        RegisterUserInput { email: "b@example.com".to_string(), password: "SenhaForte123".to_string() },
        UserId::from_uuid(4),
    );
    assert!(matches!(repetido, Err(ApplicationError::Domain(DomainError::UserAlreadyExists))));
    assert_eq!(
        seed_default_admin_com_id(&mut u, &Invertida, "admin@example.com", "AdminForte123", UserId::from_uuid(4)),
        Ok(false)
    );
    assert_eq!(
        seed_default_admin_com_id(&mut u, &Invertida, "admin@example.com", "AdminForte123", UserId::from_uuid(5)),
        Ok(true)
    );
    assert_eq!(u.list_all().len(), 2);
}

#[test]
fn cadastro_em_repositorio_vazio_sempre_da_certo() {
    let (mut u, mut c, mut p, _o) = caches();
    assert!(RegisterCliente::new(&mut c)
        .execute(RegisterClienteInput {
            nome: "Fulano".to_string(),
            documento: "111.444.777-35".to_string(),
            email: "fulano@example.com".to_string(),
        })
        .is_ok());
    assert!(RegisterProduto::new(&mut p)
        .execute(RegisterProdutoInput { nome: "Teclado".to_string(), preco: "100.00".to_string() })
        .is_ok());
    assert!(RegisterUser::new(&mut u, Invertida)
        .execute(RegisterUserInput { email: "a@example.com".to_string(), password: "SenhaForte123".to_string() })
        .is_ok());
}

#[test]
fn bcrypt_confere_a_senha_contra_o_proprio_hash() {
    let hasher = BcryptPasswordHasher::new(4);
    assert_eq!(hasher.cost(), 4);
    let senha = PlainPassword::parse("SenhaForte123").unwrap();
    let hash = hasher.hash(&senha);
    assert_ne!(hash.as_str(), "SenhaForte123");
    assert!(hash.as_str().starts_with("$2b$04$"));
    assert!(hasher.verify(&senha, &hash));
    assert!(!hasher.verify(&PlainPassword::parse("OutraSenha456").unwrap(), &hash));
    assert!(!hasher.verify(&senha, &HashedPassword::from_hash("nao-e-bcrypt".to_string())));
}

#[test]
fn login_apos_cadastro_com_bcrypt() {
    let mut usuarios: CacheUserRepository = CacheRepository::new();
    let saida = RegisterUser::new(&mut usuarios, BcryptPasswordHasher::new(4))
        .execute(RegisterUserInput { email: "rodrigo@example.com".to_string(), password: "SenhaForte123".to_string() })
        .unwrap();
    let login = AuthenticateUser::new(&mut usuarios, BcryptPasswordHasher::new(4), TokenComPapel)
        .execute(AuthenticateUserInput { email: "rodrigo@example.com".to_string(), password: "SenhaForte123".to_string() })
        .unwrap();
    assert_eq!(login.access_token, format!("{}:user", saida.user_id));
    let errada = AuthenticateUser::new(&mut usuarios, BcryptPasswordHasher::new(4), TokenComPapel)
        .execute(AuthenticateUserInput { email: "rodrigo@example.com".to_string(), password: "SenhaErrada123".to_string() });
    assert!(matches!(errada, Err(ApplicationError::Domain(DomainError::InvalidCredentials))));
}

fn evento_produto(acao: AuditAction, id: u128, nome: &str, centavos: i64) -> LinhaAuditoria {
    LinhaAuditoria::Evento(AuditEntry::new(
        AuditEntity::Produto,
        acao,
        uuid_to_string(id),
        AuditPayload::Produto { nome: nome.to_string(), preco_centavos: centavos },
    ))
}

#[test]
fn replay_sem_o_evento_recusado_da_o_mesmo_estado() {
    let com_recusado = vec![
        evento_produto(AuditAction::Insert, 1, "Monitor", 120000),
        evento_produto(AuditAction::Update, 2, "Fantasma", 100),
        evento_produto(AuditAction::Update, 1, "Monitor UltraWide", 150000),
    ];
    let sem_recusado = vec![
        evento_produto(AuditAction::Insert, 1, "Monitor", 120000),
        evento_produto(AuditAction::Update, 1, "Monitor UltraWide", 150000),
    ];
    let (mut u1, mut c1, mut p1, mut o1) = caches();
    let r1 = AuditLogReplayer::replay(&com_recusado, &mut u1, &mut c1, &mut p1, &mut o1);
    let (mut u2, mut c2, mut p2, mut o2) = caches();
    let r2 = AuditLogReplayer::replay(&sem_recusado, &mut u2, &mut c2, &mut p2, &mut o2);
    assert_eq!(r1.avisos.len(), 1);
    assert!(r2.avisos.is_empty());
    assert_eq!(p1.list_all().len(), 1);
    assert_eq!(p2.list_all().len(), 1);
    let a = p1.find_by_id(1).unwrap();
    let b = p2.find_by_id(1).unwrap();
    assert_eq!(a.nome().as_str(), b.nome().as_str());
    assert_eq!(a.preco().as_centavos(), b.preco().as_centavos());
    assert_eq!(a.nome().as_str(), "Monitor UltraWide");
    assert!(p1.find_by_id(2).is_none());
}

#[test]
fn replay_guarda_o_que_diz_o_ultimo_evento_de_cada_identidade() {
    let linhas = vec![
        evento_produto(AuditAction::Insert, 1, "Monitor", 120000),
        evento_produto(AuditAction::Insert, 2, "Cabo", 1000),
        evento_produto(AuditAction::Update, 1, "Monitor UltraWide", 150000),
        LinhaAuditoria::Evento(AuditEntry::new(
            AuditEntity::Produto,
            AuditAction::Delete,
            uuid_to_string(2),
            AuditPayload::Removido,
        )),
    ];
    let (mut u, mut c, mut p, mut o) = caches();
    let resumo = AuditLogReplayer::replay(&linhas, &mut u, &mut c, &mut p, &mut o);
    assert!(resumo.avisos.is_empty());
    assert_eq!(p.find_by_id(1).unwrap().preco().as_centavos(), 150000);
    assert!(p.find_by_id(2).is_none());
    assert!(p.find_by_id(3).is_none());
}

#[test]
fn expiracao_do_token_soma_o_prazo_e_nao_fica_negativa() {
    assert_eq!(expiracao(1_700_000_000, 3600), 1_700_003_600);
    assert_eq!(expiracao(100, -200), 0);
    assert_eq!(expiracao(i64::MAX, i64::MAX), (i64::MAX as u64) * 2);
}

#[test]
fn claims_do_token_exigem_id_e_papel_validos() {
    let c = claims_do_token(&uuid_to_string(42), "admin").unwrap();
    assert_eq!(c.user_id.as_uuid(), 42);
    assert_eq!(c.role, Role::Admin);
    assert_eq!(claims_do_token("abc", "admin").err().unwrap(), "token com id invalido");
    assert_eq!(claims_do_token(&uuid_to_string(42), "root").err().unwrap(), "token com papel invalido");
}

#[test]
fn replay_vazio_sem_avisos_segue_o_ultimo_evento() {
    let linhas = vec![
        evento_produto(AuditAction::Insert, 1, "Monitor 27pol", 120000),
        evento_produto(AuditAction::Update, 1, "Monitor 27pol UltraWide", 150000),
        evento_produto(AuditAction::Insert, 2, "Cabo", 1000),
        LinhaAuditoria::Evento(AuditEntry::new(
            AuditEntity::Produto,
            AuditAction::Delete,
            uuid_to_string(2),
            AuditPayload::Removido,
        )),
        evento_produto(AuditAction::Insert, 3, "Mouse", 5000),
    ];
    let (mut u, mut c, mut p, mut o) = caches();
    let resumo = AuditLogReplayer::replay(&linhas, &mut u, &mut c, &mut p, &mut o);
    assert!(resumo.avisos.is_empty());
    let monitor = p.find_by_id(1).unwrap();
    assert_eq!(monitor.nome().as_str(), "Monitor 27pol UltraWide");
    assert_eq!(monitor.preco().as_centavos(), 150000);
    assert!(p.find_by_id(2).is_none());
    assert_eq!(p.find_by_id(3).unwrap().nome().as_str(), "Mouse");
    assert!(p.find_by_id(4).is_none());
    assert_eq!(p.list_all().len(), 2);
}
