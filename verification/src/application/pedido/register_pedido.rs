//! Registro de pedido: congela, em cada item, o nome e o preco atuais do
//! produto.
use vstd::prelude::*;

use crate::application::dto::{
    item_saida, pedido_saida, ItemPedidoInput, ItemPedidoOutput, PedidoOutput, RegisterPedidoInput,
};
use crate::application::errors::ApplicationError;
use crate::domain::cliente::ClienteView;
use crate::domain::errors::DomainError;
use crate::domain::pedido::{item_views, soma_totais, ItemPedido, ItemPedidoView, Pedido, PedidoView};
use crate::domain::produto::ProdutoView;
use crate::domain::quantidade::Quantidade;
use crate::domain::repository::{ClienteRepository, PedidoRepository, ProdutoRepository};
use crate::ids::{parse_uuid, uuid_parse, uuid_to_string, uuid_v4, ClienteId, PedidoId, ProdutoId};

verus! {

/// O item de uma linha do pedido, com o nome e o preco atuais do produto, ou
/// o primeiro erro (identificador, quantidade, produto, valor).
pub open spec fn montar_item_spec(entrada: ItemPedidoInput, produtos: Map<u128, ProdutoView>) -> Result<
    ItemPedidoView,
    DomainError,
> {
    match uuid_parse(entrada.produto_id@) {
        None => Err(DomainError::InvalidId),
        Some(pid) => if entrada.quantidade == 0 {
            Err(DomainError::InvalidQuantidade)
        } else if !produtos.contains_key(pid) {
            Err(DomainError::ProdutoNotFound)
        } else if produtos[pid].preco * entrada.quantidade > i64::MAX {
            Err(DomainError::ValorMonetarioInvalido)
        } else {
            Ok(
                ItemPedidoView {
                    produto_id: pid,
                    nome_produto: produtos[pid].nome,
                    quantidade: entrada.quantidade,
                    valor_unitario: produtos[pid].preco,
                    valor_total: produtos[pid].preco * entrada.quantidade,
                },
            )
        },
    }
}

/// Os itens das linhas, na mesma ordem, ou o erro da primeira linha recusada.
pub open spec fn montar_itens_spec(entradas: Seq<ItemPedidoInput>, produtos: Map<u128, ProdutoView>) -> Result<
    Seq<ItemPedidoView>,
    DomainError,
>
    decreases entradas.len(),
{
    if entradas.len() == 0 {
        Ok(Seq::empty())
    } else {
        match montar_itens_spec(entradas.drop_last(), produtos) {
            Err(e) => Err(e),
            Ok(a) => match montar_item_spec(entradas.last(), produtos) {
                Err(e) => Err(e),
                Ok(b) => Ok(a.push(b)),
            },
        }
    }
}

/// O pedido descrito pela entrada (cliente, itens e total), ou o primeiro
/// erro.
pub open spec fn registrar_pedido_spec(
    input: RegisterPedidoInput,
    clientes: Map<u128, ClienteView>,
    produtos: Map<u128, ProdutoView>,
) -> Result<(u128, Seq<ItemPedidoView>, int), DomainError> {
    match uuid_parse(input.cliente_id@) {
        None => Err(DomainError::InvalidId),
        Some(c) => if !clientes.contains_key(c) {
            Err(DomainError::ClienteNotFound)
        } else {
            match montar_itens_spec(input.itens@, produtos) {
                Err(e) => Err(e),
                Ok(itens) => if itens.len() == 0 {
                    Err(DomainError::PedidoSemItens)
                } else if soma_totais(itens) > i64::MAX {
                    Err(DomainError::ValorMonetarioInvalido)
                } else {
                    Ok((c, itens, soma_totais(itens)))
                },
            }
        },
    }
}

/// Se um prefixo das linhas ja e recusado, o pedido inteiro e recusado pelo
/// mesmo motivo.
pub proof fn lemma_montar_itens_prefix_err(
    entradas: Seq<ItemPedidoInput>,
    produtos: Map<u128, ProdutoView>,
    k: int,
)
    requires
        0 <= k <= entradas.len(),
        montar_itens_spec(entradas.subrange(0, k), produtos) is Err,
    ensures
        montar_itens_spec(entradas, produtos) == montar_itens_spec(entradas.subrange(0, k), produtos),
    decreases entradas.len(),
{
    if k == entradas.len() {
        assert(entradas.subrange(0, k) =~= entradas);
    } else {
        assert(entradas.drop_last().subrange(0, k) =~= entradas.subrange(0, k));
        lemma_montar_itens_prefix_err(entradas.drop_last(), produtos, k);
    }
}

/// O que o registro de um pedido com a identidade `k` faz: com a entrada
/// recusada, o primeiro erro; com a identidade ja em uso,
/// `PedidoAlreadyExists`; senao guarda o pedido e devolve seus dados. So o
/// sucesso muda os pedidos guardados.
pub open spec fn registro_de_pedido(
    input: RegisterPedidoInput,
    clientes: Map<u128, ClienteView>,
    produtos: Map<u128, ProdutoView>,
    antes: Map<u128, PedidoView>,
    depois: Map<u128, PedidoView>,
    k: u128,
    r: Result<PedidoOutput, ApplicationError>,
) -> bool {
    match registrar_pedido_spec(input, clientes, produtos) {
        Err(e) => depois == antes && (r matches Err(ApplicationError::Domain(x)) && x == e),
        Ok((c, itens, total)) => if antes.contains_key(k) {
            depois == antes && r matches Err(ApplicationError::Domain(DomainError::PedidoAlreadyExists))
        } else {
            depois == antes.insert(k, PedidoView { id: k, cliente_id: c, itens, valor_total: total }) && (
            r matches Ok(out) && pedido_saida(out, PedidoView { id: k, cliente_id: c, itens, valor_total: total }))
        },
    }
}

pub struct RegisterPedido<C: ClienteRepository, P: ProdutoRepository, O: PedidoRepository> {
    cliente_repository: C,
    produto_repository: P,
    pedido_repository: O,
}

impl<C: ClienteRepository, P: ProdutoRepository, O: PedidoRepository> RegisterPedido<C, P, O> {
    pub closed spec fn clientes(&self) -> Map<u128, ClienteView> {
        self.cliente_repository.clientes()
    }

    pub closed spec fn produtos(&self) -> Map<u128, ProdutoView> {
        self.produto_repository.produtos()
    }

    pub closed spec fn pedidos(&self) -> Map<u128, PedidoView> {
        self.pedido_repository.pedidos()
    }

    pub fn new(cliente_repository: C, produto_repository: P, pedido_repository: O) -> (r: Self)
        ensures
            r.clientes() == cliente_repository.clientes(),
            r.produtos() == produto_repository.produtos(),
            r.pedidos() == pedido_repository.pedidos(),
    {
        RegisterPedido { cliente_repository, produto_repository, pedido_repository }
    }

    /// Devolve os tres repositorios.
    pub fn into_repositories(self) -> (r: (C, P, O))
        ensures
            r.0.clientes() == self.clientes(),
            r.1.produtos() == self.produtos(),
            r.2.pedidos() == self.pedidos(),
    {
        (self.cliente_repository, self.produto_repository, self.pedido_repository)
    }

    /// Registra um pedido com uma identidade nova, aleatoria (UUID v4). So
    /// falha por identidade repetida se o sorteio cair numa ja usada.
    pub fn execute(&mut self, input: RegisterPedidoInput) -> (r: Result<PedidoOutput, ApplicationError>)
        ensures
            final(self).clientes() == old(self).clientes(),
            final(self).produtos() == old(self).produtos(),
            exists|k: u128|
                uuid_v4(k) && registro_de_pedido(
                    input,
                    old(self).clientes(),
                    old(self).produtos(),
                    old(self).pedidos(),
                    final(self).pedidos(),
                    k,
                    r,
                ),
            registrar_pedido_spec(input, old(self).clientes(), old(self).produtos()) is Ok && old(
                self,
            ).pedidos().is_empty() ==> r is Ok,
    {
        let id = PedidoId::new();
        let r = self.execute_com_id(input, id);
        assert(uuid_v4(id.spec_uuid()));
        r
    }

    /// O registro com a identidade `pedido_id` ja sorteada.
    pub fn execute_com_id(&mut self, input: RegisterPedidoInput, pedido_id: PedidoId) -> (r: Result<
        PedidoOutput,
        ApplicationError,
    >)
        ensures
            final(self).clientes() == old(self).clientes(),
            final(self).produtos() == old(self).produtos(),
            registro_de_pedido(
                input,
                old(self).clientes(),
                old(self).produtos(),
                old(self).pedidos(),
                final(self).pedidos(),
                pedido_id.spec_uuid(),
                r,
            ),
    {
        let cliente_id = match Self::parse_cliente_id(input.cliente_id.as_str()) {
            Ok(id) => id,
            Err(e) => return Err(e),
        };
        match self.ensure_cliente_existe(cliente_id) {
            Ok(()) => {},
            Err(e) => return Err(e),
        }
        let itens = match self.montar_itens_com_preco_atual(&input.itens) {
            Ok(v) => v,
            Err(e) => return Err(e),
        };
        let pedido = match Pedido::register_com_id(pedido_id, cliente_id, itens) {
            Ok(p) => p,
            Err(e) => return Err(ApplicationError::Domain(e)),
        };
        match self.pedido_repository.save(&pedido) {
            Ok(()) => {},
            Err(e) => return Err(ApplicationError::Domain(e)),
        }
        let out = Self::to_output(&pedido);
        proof {
            let k = pedido@.id;
            assert(pedido@ == PedidoView {
                id: k,
                cliente_id: pedido@.cliente_id,
                itens: pedido@.itens,
                valor_total: pedido@.valor_total,
            });
        }
        Ok(out)
    }

    fn ensure_cliente_existe(&self, cliente_id: ClienteId) -> (r: Result<(), ApplicationError>)
        ensures
            match r {
                Ok(()) => self.clientes().contains_key(cliente_id.spec_uuid()),
                Err(e) => !self.clientes().contains_key(cliente_id.spec_uuid()) && e matches ApplicationError::Domain(
                    DomainError::ClienteNotFound,
                ),
            },
    {
        match self.cliente_repository.find_by_id(cliente_id) {
            Ok(Some(_)) => Ok(()),
            Ok(None) => Err(ApplicationError::Domain(DomainError::ClienteNotFound)),
            Err(e) => Err(ApplicationError::Domain(e)),
        }
    }

    /// Para cada linha, em ordem, congela nome e preco atuais do produto.
    fn montar_itens_com_preco_atual(&self, entradas: &Vec<ItemPedidoInput>) -> (r: Result<
        Vec<ItemPedido>,
        ApplicationError,
    >)
        ensures
            match r {
                Ok(v) => montar_itens_spec(entradas@, self.produtos()) == Ok::<
                    Seq<ItemPedidoView>,
                    DomainError,
                >(item_views(v@)),
                Err(ApplicationError::Domain(e)) => montar_itens_spec(entradas@, self.produtos())
                    == Err::<Seq<ItemPedidoView>, DomainError>(e),
                Err(ApplicationError::Unexpected(_)) => false,
            },
    {
        let n = entradas.len();
        let mut itens: Vec<ItemPedido> = Vec::new();
        proof {
            assert(entradas@.subrange(0, 0) =~= Seq::<ItemPedidoInput>::empty());
            assert(item_views(itens@) =~= Seq::<ItemPedidoView>::empty());
        }
        let mut i: usize = 0;
        while i < n
            invariant
                n == entradas@.len(),
                i <= n,
                montar_itens_spec(entradas@.subrange(0, i as int), self.produtos()) == Ok::<
                    Seq<ItemPedidoView>,
                    DomainError,
                >(item_views(itens@)),
            decreases n - i,
        {
            let item = self.montar_item(&entradas[i]);
            proof {
                assert(entradas@.subrange(0, i + 1).drop_last() =~= entradas@.subrange(0, i as int));
                assert(entradas@.subrange(0, i + 1).last() == entradas@[i as int]);
            }
            match item {
                Ok(x) => {
                    proof {
                        assert(item_views(itens@.push(x)) =~= item_views(itens@).push(x@));
                    }
                    itens.push(x);
                },
                Err(e) => {
                    proof {
                        lemma_montar_itens_prefix_err(entradas@, self.produtos(), i + 1);
                    }
                    return Err(e);
                },
            }
            i = i + 1;
        }
        proof {
            assert(entradas@.subrange(0, n as int) =~= entradas@);
        }
        Ok(itens)
    }

    fn montar_item(&self, entrada: &ItemPedidoInput) -> (r: Result<ItemPedido, ApplicationError>)
        ensures
            match r {
                Ok(x) => montar_item_spec(*entrada, self.produtos()) == Ok::<ItemPedidoView, DomainError>(
                    x@,
                ),
                Err(ApplicationError::Domain(e)) => montar_item_spec(*entrada, self.produtos()) == Err::<
                    ItemPedidoView,
                    DomainError,
                >(e),
                Err(ApplicationError::Unexpected(_)) => false,
            },
    {
        let produto_id = match Self::parse_produto_id(entrada.produto_id.as_str()) {
            Ok(id) => id,
            Err(e) => return Err(e),
        };
        let quantidade = match Quantidade::parse(entrada.quantidade) {
            Ok(q) => q,
            Err(e) => return Err(ApplicationError::Domain(e)),
        };
        let produto = match self.produto_repository.find_by_id(produto_id) {
            Ok(Some(p)) => p,
            Ok(None) => return Err(ApplicationError::Domain(DomainError::ProdutoNotFound)),
            Err(e) => return Err(ApplicationError::Domain(e)),
        };
        match ItemPedido::snapshot_no_momento_do_pedido(
            produto.id(),
            produto.nome().duplicate(),
            quantidade,
            produto.preco(),
        ) {
            Ok(item) => Ok(item),
            Err(e) => Err(ApplicationError::Domain(e)),
        }
    }

    fn parse_cliente_id(raw: &str) -> (r: Result<ClienteId, ApplicationError>)
        ensures
            match uuid_parse(raw@) {
                Some(u) => r matches Ok(id) && id.spec_uuid() == u,
                None => r matches Err(ApplicationError::Domain(DomainError::InvalidId)),
            },
    {
        match parse_uuid(raw) {
            Some(u) => Ok(ClienteId::from_uuid(u)),
            None => Err(ApplicationError::Domain(DomainError::InvalidId)),
        }
    }

    fn parse_produto_id(raw: &str) -> (r: Result<ProdutoId, ApplicationError>)
        ensures
            match uuid_parse(raw@) {
                Some(u) => r matches Ok(id) && id.spec_uuid() == u,
                None => r matches Err(ApplicationError::Domain(DomainError::InvalidId)),
            },
    {
        match parse_uuid(raw) {
            Some(u) => Ok(ProdutoId::from_uuid(u)),
            None => Err(ApplicationError::Domain(DomainError::InvalidId)),
        }
    }

    /// O pedido em campos primitivos, com os valores em reais.
    pub fn to_output(pedido: &Pedido) -> (o: PedidoOutput)
        ensures
            pedido_saida(o, pedido@),
    {
        pedido_output(pedido)
    }

    /// Um item em campos primitivos, com os valores congelados em reais.
    pub fn item_to_output(item: &ItemPedido) -> (o: ItemPedidoOutput)
        ensures
            item_saida(o, item@),
    {
        item_output(item)
    }
}

/// O pedido em campos primitivos, com os valores em reais.
pub fn pedido_output(pedido: &Pedido) -> (o: PedidoOutput)
    ensures
        pedido_saida(o, pedido@),
{
    let itens = pedido.itens();
    let n = itens.len();
    let mut saida: Vec<ItemPedidoOutput> = Vec::new();
    let mut i: usize = 0;
    while i < n
        invariant
            n == itens@.len(),
            item_views(itens@) == pedido@.itens,
            i <= n,
            saida@.len() == i,
            forall|j: int| 0 <= j < i ==> item_saida(#[trigger] saida@[j], pedido@.itens[j]),
        decreases n - i,
    {
        saida.push(item_output(&itens[i]));
        i = i + 1;
    }
    PedidoOutput {
        pedido_id: uuid_to_string(pedido.id().as_uuid()),
        cliente_id: uuid_to_string(pedido.cliente_id().as_uuid()),
        itens: saida,
        valor_total: pedido.valor_total().as_reais_str(),
    }
}

/// Um item em campos primitivos, com os valores congelados em reais.
pub fn item_output(item: &ItemPedido) -> (o: ItemPedidoOutput)
    ensures
        item_saida(o, item@),
{
    ItemPedidoOutput {
        produto_id: uuid_to_string(item.produto_id().as_uuid()),
        nome_produto: item.nome_produto().as_str().to_string(),
        quantidade: item.quantidade().valor(),
        valor_unitario: item.valor_unitario().as_reais_str(),
        valor_total: item.valor_total().as_reais_str(),
    }
}

} // verus!
