use cadastro_api::application::audit_logger::AuditEntry;
use cadastro_api::application::cliente::register_cliente::RegisterCliente;
use cadastro_api::application::dto::{
    ItemPedidoInput, RegisterClienteInput, RegisterPedidoInput, RegisterProdutoInput, RegisterUserInput,
    UpdateProdutoInput,
};
use cadastro_api::application::errors::ApplicationError;
use cadastro_api::application::pedido::register_pedido::RegisterPedido;
use cadastro_api::application::produto::delete_produto::DeleteProduto;
use cadastro_api::application::produto::register_produto::RegisterProduto;
use cadastro_api::application::produto::update_produto::UpdateProduto;
use cadastro_api::application::usuario::register_user::RegisterUser;
use cadastro_api::domain::email::Email;
use cadastro_api::domain::errors::DomainError;
use cadastro_api::ids::{ClienteId, PedidoId, ProdutoId};
use cadastro_api::infra::audit_log_replayer::{AuditLogReplayer, LinhaAuditoria};
use cadastro_api::infra::audited::AuditedRepository;
use cadastro_api::infra::bcrypt_hasher::BcryptPasswordHasher;
use cadastro_api::infra::cache::CacheRepository;
use cadastro_api::infra::repositories::{
    AuditedClienteRepository, AuditedPedidoRepository, AuditedProdutoRepository,
    AuditedUserRepository, CacheClienteRepository, CachePedidoRepository, CacheProdutoRepository,
    CacheUserRepository,
};

/// Hasher bcrypt de custo minimo: testes rapidos.
fn hasher_rapido() -> BcryptPasswordHasher {
    BcryptPasswordHasher::new(4)
}

/// A composicao usada em producao: caches decorados com auditoria, e o
/// "arquivo" onde cada registro retirado das trilhas e gravado, em ordem.
struct Ambiente {
    usuarios: AuditedUserRepository,
    clientes: AuditedClienteRepository,
    produtos: AuditedProdutoRepository,
    pedidos: AuditedPedidoRepository,
    arquivo: Vec<AuditEntry>,
}

fn montar_ambiente() -> Ambiente {
    Ambiente {
        usuarios: AuditedRepository::new(CacheRepository::new()),
        clientes: AuditedRepository::new(CacheRepository::new()),
        produtos: AuditedRepository::new(CacheRepository::new()),
        pedidos: AuditedRepository::new(CacheRepository::new()),
        arquivo: Vec::new(),
    }
}

impl Ambiente {
    fn gravar(&mut self) {
        self.arquivo.extend(self.usuarios.take_registros());
        self.arquivo.extend(self.clientes.take_registros());
        self.arquivo.extend(self.produtos.take_registros());
        self.arquivo.extend(self.pedidos.take_registros());
    }
}

fn uuid_de(texto: &str) -> u128 {
    uuid::Uuid::parse_str(texto).unwrap().as_u128()
}

fn produto_input(nome: &str, preco: &str) -> RegisterProdutoInput {
    RegisterProdutoInput {
        nome: nome.to_string(),
        preco: preco.to_string(),
    }
}

fn cliente_input() -> RegisterClienteInput {
    RegisterClienteInput {
        nome: "Rodrigo Furlaneti".to_string(),
        documento: "111.444.777-35".to_string(),
        email: "cliente@example.com".to_string(),
    }
}

#[test]
fn pedido_guarda_o_preco_do_produto_no_momento_da_compra_mesmo_apos_reajuste() {
    let mut ambiente = montar_ambiente();

    let cliente = RegisterCliente::new(&mut ambiente.clientes)
        .execute(cliente_input())
        .expect("cadastro de cliente deveria funcionar");

    let produto = RegisterProduto::new(&mut ambiente.produtos)
        .execute(produto_input("Teclado mecanico", "100.00"))
        .expect("cadastro de produto deveria funcionar");

    let pedido = RegisterPedido::new(&mut ambiente.clientes, &mut ambiente.produtos, &mut ambiente.pedidos)
        .execute(RegisterPedidoInput {
            cliente_id: cliente.cliente_id.clone(),
            itens: vec![ItemPedidoInput {
                produto_id: produto.produto_id.clone(),
                quantidade: 2,
            }],
        })
        .expect("pedido deveria ser criado");

    assert_eq!(pedido.itens.len(), 1);
    assert_eq!(pedido.itens[0].valor_unitario, "100.00");
    assert_eq!(pedido.itens[0].valor_total, "200.00");
    assert_eq!(pedido.valor_total, "200.00");

    UpdateProduto::new(&mut ambiente.produtos)
        .execute(
            ProdutoId::from_uuid(uuid_de(&produto.produto_id)),
            UpdateProdutoInput {
                nome: "Teclado mecanico".to_string(),
                preco: "150.00".to_string(),
            },
        )
        .expect("reajuste de preco deveria funcionar");

    let pedido_id = PedidoId::from_uuid(uuid_de(&pedido.pedido_id));
    let pedido_relido = ambiente
        .pedidos
        .find_by_id(pedido_id.as_uuid())
        .expect("pedido deveria continuar existindo");

    assert_eq!(pedido_relido.valor_total().as_reais_str(), "200.00");
    assert_eq!(pedido_relido.itens()[0].valor_unitario().as_reais_str(), "100.00");

    let produto_atual = ambiente
        .produtos
        .find_by_id(uuid_de(&produto.produto_id))
        .expect("produto deveria continuar existindo");
    assert_eq!(produto_atual.preco().as_reais_str(), "150.00");
}

#[test]
fn rejeita_pedido_sem_itens() {
    let mut ambiente = montar_ambiente();
    let cliente = RegisterCliente::new(&mut ambiente.clientes)
        .execute(cliente_input())
        .expect("cadastro de cliente deveria funcionar");

    let resultado = RegisterPedido::new(&mut ambiente.clientes, &mut ambiente.produtos, &mut ambiente.pedidos)
        .execute(RegisterPedidoInput {
            cliente_id: cliente.cliente_id,
            itens: vec![],
        });

    assert!(resultado.is_err());
    assert!(matches!(resultado, Err(ApplicationError::Domain(DomainError::PedidoSemItens))));
}

#[test]
fn rejeita_pedido_com_produto_inexistente() {
    let mut ambiente = montar_ambiente();
    let cliente = RegisterCliente::new(&mut ambiente.clientes)
        .execute(cliente_input())
        .expect("cadastro de cliente deveria funcionar");

    let resultado = RegisterPedido::new(&mut ambiente.clientes, &mut ambiente.produtos, &mut ambiente.pedidos)
        .execute(RegisterPedidoInput {
            cliente_id: cliente.cliente_id,
            itens: vec![ItemPedidoInput {
                produto_id: uuid::Uuid::new_v4().to_string(),
                quantidade: 1,
            }],
        });

    assert!(resultado.is_err());
    assert!(matches!(resultado, Err(ApplicationError::Domain(DomainError::ProdutoNotFound))));
}

#[test]
fn rejeita_pedido_com_quantidade_zero() {
    let mut ambiente = montar_ambiente();
    let cliente = RegisterCliente::new(&mut ambiente.clientes)
        .execute(cliente_input())
        .expect("cadastro de cliente deveria funcionar");
    let produto = RegisterProduto::new(&mut ambiente.produtos)
        .execute(produto_input("Mouse", "50.00"))
        .expect("cadastro de produto deveria funcionar");

    let resultado = RegisterPedido::new(&mut ambiente.clientes, &mut ambiente.produtos, &mut ambiente.pedidos)
        .execute(RegisterPedidoInput {
            cliente_id: cliente.cliente_id,
            itens: vec![ItemPedidoInput {
                produto_id: produto.produto_id,
                quantidade: 0,
            }],
        });

    assert!(resultado.is_err());
    assert!(matches!(resultado, Err(ApplicationError::Domain(DomainError::InvalidQuantidade))));
}

#[test]
fn cache_e_reidratado_a_partir_do_arquivo_de_auditoria_apos_reinicio_simulado() {
    // ---- "Processo 1": estado antes do restart -------------------------
    let email_usuario;
    let documento_cliente;
    let nome_produto_final;
    let preco_produto_final_centavos;
    let pedido_id_string;
    let cliente_id_string;
    let produto_removido_id_string;
    let arquivo;

    {
        let mut ambiente = montar_ambiente();

        let usuario = RegisterUser::new(&mut ambiente.usuarios, hasher_rapido())
            .execute(RegisterUserInput {
                email: "sobrevivente@example.com".to_string(),
                password: "SenhaForte123".to_string(),
            })
            .expect("cadastro de usuario deveria funcionar");
        email_usuario = usuario.email;
        ambiente.gravar();

        let cliente = RegisterCliente::new(&mut ambiente.clientes)
            .execute(cliente_input())
            .expect("cadastro de cliente deveria funcionar");
        documento_cliente = cliente.documento.clone();
        cliente_id_string = cliente.cliente_id.clone();
        ambiente.gravar();

        let produto = RegisterProduto::new(&mut ambiente.produtos)
            .execute(produto_input("Monitor 27pol", "1200.00"))
            .expect("cadastro de produto deveria funcionar");
        ambiente.gravar();
        let produto_atualizado = UpdateProduto::new(&mut ambiente.produtos)
            .execute(
                ProdutoId::from_uuid(uuid_de(&produto.produto_id)),
                UpdateProdutoInput {
                    nome: "Monitor 27pol UltraWide".to_string(),
                    preco: "1500.00".to_string(),
                },
            )
            .expect("atualizacao de produto deveria funcionar");
        nome_produto_final = produto_atualizado.nome.clone();
        preco_produto_final_centavos = 150_000i64;
        ambiente.gravar();

        let produto_temporario = RegisterProduto::new(&mut ambiente.produtos)
            .execute(produto_input("Produto descontinuado", "10.00"))
            .expect("cadastro de produto deveria funcionar");
        produto_removido_id_string = produto_temporario.produto_id.clone();
        ambiente.gravar();
        DeleteProduto::new(&mut ambiente.produtos)
            .execute(ProdutoId::from_uuid(uuid_de(&produto_temporario.produto_id)))
            .expect("remocao de produto deveria funcionar");
        ambiente.gravar();

        let pedido = RegisterPedido::new(&mut ambiente.clientes, &mut ambiente.produtos, &mut ambiente.pedidos)
            .execute(RegisterPedidoInput {
                cliente_id: cliente.cliente_id,
                itens: vec![ItemPedidoInput {
                    produto_id: produto.produto_id,
                    quantidade: 1,
                }],
            })
            .expect("pedido deveria ser criado");
        pedido_id_string = pedido.pedido_id;
        ambiente.gravar();

        arquivo = ambiente.arquivo;
    }

    // ---- "Processo 2": novo boot, cache vazio, so o arquivo sobrevive --
    let linhas: Vec<LinhaAuditoria> = arquivo.into_iter().map(LinhaAuditoria::Evento).collect();
    let mut usuarios_novos: CacheUserRepository = CacheRepository::new();
    let mut clientes_novos: CacheClienteRepository = CacheRepository::new();
    let mut produtos_novos: CacheProdutoRepository = CacheRepository::new();
    let mut pedidos_novos: CachePedidoRepository = CacheRepository::new();

    let resumo = AuditLogReplayer::replay(
        &linhas,
        &mut usuarios_novos,
        &mut clientes_novos,
        &mut produtos_novos,
        &mut pedidos_novos,
    );
    assert_eq!(resumo.eventos_aplicados, 7);
    assert!(resumo.avisos.is_empty());

    let email = Email::parse(&email_usuario).unwrap();
    let usuario_reidratado = usuarios_novos
        .find_by_email(&email)
        .expect("usuario deveria ter sido reidratado do arquivo de auditoria");
    assert_eq!(usuario_reidratado.email().as_str(), email_usuario);
    assert!(bcrypt::verify("SenhaForte123", usuario_reidratado.password_hash().as_str()).unwrap());

    let cliente_id = ClienteId::from_uuid(uuid_de(&cliente_id_string));
    let cliente_reidratado = clientes_novos
        .find_by_id(cliente_id.as_uuid())
        .expect("cliente deveria ter sido reidratado");
    assert_eq!(cliente_reidratado.documento().as_str(), documento_cliente);

    let pedido_id = PedidoId::from_uuid(uuid_de(&pedido_id_string));
    let pedido_reidratado = pedidos_novos
        .find_by_id(pedido_id.as_uuid())
        .expect("pedido deveria ter sido reidratado");
    assert_eq!(pedido_reidratado.itens()[0].nome_produto().as_str(), nome_produto_final);

    let produto_id = pedido_reidratado.itens()[0].produto_id();
    let produto_reidratado = produtos_novos
        .find_by_id(produto_id.as_uuid())
        .expect("produto deveria ter sido reidratado com o ultimo estado (pos-update)");
    assert_eq!(produto_reidratado.nome().as_str(), nome_produto_final);
    assert_eq!(produto_reidratado.preco().as_centavos(), preco_produto_final_centavos);

    let produto_removido = produtos_novos.find_by_id(uuid_de(&produto_removido_id_string));
    assert!(produto_removido.is_none());
}
