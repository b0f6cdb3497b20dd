//! Agregado `Pedido` e o value object `ItemPedido`, que congela nome e preco
//! do produto no momento da compra.
use vstd::prelude::*;

use crate::domain::dinheiro::Dinheiro;
use crate::domain::errors::DomainError;
use crate::domain::nome::{nome_valido, Nome};
use crate::domain::quantidade::Quantidade;
use crate::ids::{ClienteId, PedidoId, ProdutoId};

verus! {

pub struct ItemPedido {
    produto_id: ProdutoId,
    nome_produto: Nome,
    quantidade: Quantidade,
    valor_unitario: Dinheiro,
    valor_total: Dinheiro,
}

pub struct ItemPedidoView {
    pub produto_id: u128,
    pub nome_produto: Seq<char>,
    pub quantidade: u32,
    pub valor_unitario: int,
    pub valor_total: int,
}

pub open spec fn item_wf(v: ItemPedidoView) -> bool {
    &&& nome_valido(v.nome_produto)
    &&& v.quantidade > 0
    &&& 0 <= v.valor_unitario <= i64::MAX
    &&& 0 <= v.valor_total <= i64::MAX
}

impl View for ItemPedido {
    type V = ItemPedidoView;

    closed spec fn view(&self) -> ItemPedidoView {
        ItemPedidoView {
            produto_id: self.produto_id.spec_uuid(),
            nome_produto: self.nome_produto@,
            quantidade: self.quantidade.spec_valor(),
            valor_unitario: self.valor_unitario.spec_centavos(),
            valor_total: self.valor_total.spec_centavos(),
        }
    }
}

impl ItemPedido {
    /// Congela nome e preco atuais do produto; o total e `preco * quantidade`.
    pub fn snapshot_no_momento_do_pedido(
        produto_id: ProdutoId,
        nome_produto: Nome,
        quantidade: Quantidade,
        valor_unitario: Dinheiro,
    ) -> (r: Result<ItemPedido, DomainError>)
        ensures
            match r {
                Ok(item) => item@ == (ItemPedidoView {
                    produto_id: produto_id.spec_uuid(),
                    nome_produto: nome_produto@,
                    quantidade: quantidade.spec_valor(),
                    valor_unitario: valor_unitario.spec_centavos(),
                    valor_total: valor_unitario.spec_centavos() * quantidade.spec_valor(),
                }) && valor_unitario.spec_centavos() * quantidade.spec_valor() <= i64::MAX,
                Err(e) => e == DomainError::ValorMonetarioInvalido && valor_unitario.spec_centavos()
                    * quantidade.spec_valor() > i64::MAX,
            },
    {
        let q = quantidade.valor();
        let valor_total = match valor_unitario.vezes(q) {
            Ok(v) => v,
            Err(e) => return Err(e),
        };
        Ok(ItemPedido { produto_id, nome_produto, quantidade, valor_unitario, valor_total })
    }

    pub fn reconstitute(
        produto_id: ProdutoId,
        nome_produto: Nome,
        quantidade: Quantidade,
        valor_unitario: Dinheiro,
        valor_total: Dinheiro,
    ) -> (item: ItemPedido)
        ensures
            item@ == (ItemPedidoView {
                produto_id: produto_id.spec_uuid(),
                nome_produto: nome_produto@,
                quantidade: quantidade.spec_valor(),
                valor_unitario: valor_unitario.spec_centavos(),
                valor_total: valor_total.spec_centavos(),
            }),
    {
        ItemPedido { produto_id, nome_produto, quantidade, valor_unitario, valor_total }
    }

    pub fn produto_id(&self) -> (id: ProdutoId)
        ensures
            id.spec_uuid() == self@.produto_id,
    {
        self.produto_id
    }

    pub fn nome_produto(&self) -> (n: &Nome)
        ensures
            n@ == self@.nome_produto,
    {
        &self.nome_produto
    }

    pub fn quantidade(&self) -> (q: Quantidade)
        ensures
            q.spec_valor() == self@.quantidade,
    {
        self.quantidade
    }

    pub fn valor_unitario(&self) -> (d: Dinheiro)
        ensures
            d.spec_centavos() == self@.valor_unitario,
    {
        self.valor_unitario
    }

    pub fn valor_total(&self) -> (d: Dinheiro)
        ensures
            d.spec_centavos() == self@.valor_total,
    {
        self.valor_total
    }

    pub fn check_wf(&self)
        ensures
            item_wf(self@),
    {
        self.nome_produto.as_str();
        self.quantidade.valor();
        self.valor_unitario.as_centavos();
        self.valor_total.as_centavos();
    }

    pub fn duplicate(&self) -> (item: ItemPedido)
        ensures
            item@ == self@,
    {
        ItemPedido {
            produto_id: self.produto_id,
            nome_produto: self.nome_produto.duplicate(),
            quantidade: self.quantidade,
            valor_unitario: self.valor_unitario,
            valor_total: self.valor_total,
        }
    }
}

/// As vistas dos itens, na mesma ordem.
pub open spec fn item_views(itens: Seq<ItemPedido>) -> Seq<ItemPedidoView> {
    itens.map_values(|i: ItemPedido| i@)
}

/// Soma dos totais dos itens.
pub open spec fn soma_totais(itens: Seq<ItemPedidoView>) -> int
    decreases itens.len(),
{
    if itens.len() == 0 {
        0
    } else {
        soma_totais(itens.drop_last()) + itens.last().valor_total
    }
}

pub struct Pedido {
    id: PedidoId,
    cliente_id: ClienteId,
    itens: Vec<ItemPedido>,
    valor_total: Dinheiro,
}

pub struct PedidoView {
    pub id: u128,
    pub cliente_id: u128,
    pub itens: Seq<ItemPedidoView>,
    pub valor_total: int,
}

pub open spec fn pedido_wf(v: PedidoView) -> bool {
    &&& forall|k: int| 0 <= k < v.itens.len() ==> item_wf(#[trigger] v.itens[k])
    &&& 0 <= v.valor_total <= i64::MAX
}

impl View for Pedido {
    type V = PedidoView;

    closed spec fn view(&self) -> PedidoView {
        PedidoView {
            id: self.id.spec_uuid(),
            cliente_id: self.cliente_id.spec_uuid(),
            itens: item_views(self.itens@),
            valor_total: self.valor_total.spec_centavos(),
        }
    }
}

impl Pedido {
    /// Pedido novo: precisa de ao menos um item; o total e a soma dos totais
    /// dos itens (que ja guardam o preco do momento da compra).
    pub fn register(cliente_id: ClienteId, itens: Vec<ItemPedido>) -> (r: Result<Pedido, DomainError>)
        ensures
            match r {
                Ok(p) => {
                    &&& itens@.len() > 0
                    &&& p@.cliente_id == cliente_id.spec_uuid()
                    &&& p@.itens == item_views(itens@)
                    &&& p@.valor_total == soma_totais(item_views(itens@))
                    &&& soma_totais(item_views(itens@)) <= i64::MAX
                },
                Err(e) => {
                    ||| itens@.len() == 0 && e == DomainError::PedidoSemItens
                    ||| itens@.len() > 0 && e == DomainError::ValorMonetarioInvalido && soma_totais(
                        item_views(itens@),
                    ) > i64::MAX
                },
            },
    {
        Pedido::register_com_id(PedidoId::new(), cliente_id, itens)
    }

    /// O mesmo registro, com a identidade `id` ja sorteada.
    pub fn register_com_id(id: PedidoId, cliente_id: ClienteId, itens: Vec<ItemPedido>) -> (r: Result<
        Pedido,
        DomainError,
    >)
        ensures
            match r {
                Ok(p) => {
                    &&& itens@.len() > 0
                    &&& p@.id == id.spec_uuid()
                    &&& p@.cliente_id == cliente_id.spec_uuid()
                    &&& p@.itens == item_views(itens@)
                    &&& p@.valor_total == soma_totais(item_views(itens@))
                    &&& soma_totais(item_views(itens@)) <= i64::MAX
                },
                Err(e) => {
                    ||| itens@.len() == 0 && e == DomainError::PedidoSemItens
                    ||| itens@.len() > 0 && e == DomainError::ValorMonetarioInvalido && soma_totais(
                        item_views(itens@),
                    ) > i64::MAX
                },
            },
    {
        let n = itens.len();
        if n == 0 {
            return Err(DomainError::PedidoSemItens);
        }
        let ghost views = item_views(itens@);
        let mut soma: i128 = 0;
        let mut i: usize = 0;
        while i < n
            invariant
                n == itens@.len(),
                views == item_views(itens@),
                i <= n,
                soma == soma_totais(views.subrange(0, i as int)),
                0 <= soma <= i * i64::MAX,
            decreases n - i,
        {
            let t = itens[i].valor_total().as_centavos();
            proof {
                assert(views.subrange(0, i + 1).drop_last() =~= views.subrange(0, i as int));
                assert(views[i as int] == itens@[i as int]@);
                assert(soma + t <= (i + 1) * i64::MAX) by (nonlinear_arith)
                    requires
                        soma <= i * i64::MAX,
                        t <= i64::MAX,
                ;
                assert((i + 1) * i64::MAX <= usize::MAX * i64::MAX) by (nonlinear_arith)
                    requires
                        i + 1 <= usize::MAX,
                ;
                assert(usize::MAX * i64::MAX < i128::MAX) by (nonlinear_arith)
                    requires
                        usize::MAX <= u64::MAX,
                ;
            }
            soma = soma + t as i128;
            i = i + 1;
        }
        assert(views.subrange(0, n as int) =~= views);
        if soma > 9223372036854775807i128 {
            return Err(DomainError::ValorMonetarioInvalido);
        }
        let valor_total = match Dinheiro::from_centavos(soma as i64) {
            Ok(v) => v,
            Err(e) => return Err(e),
        };
        Ok(Pedido { id, cliente_id, itens, valor_total })
    }

    pub fn reconstitute(
        id: PedidoId,
        cliente_id: ClienteId,
        itens: Vec<ItemPedido>,
        valor_total: Dinheiro,
    ) -> (p: Pedido)
        ensures
            p@ == (PedidoView {
                id: id.spec_uuid(),
                cliente_id: cliente_id.spec_uuid(),
                itens: item_views(itens@),
                valor_total: valor_total.spec_centavos(),
            }),
    {
        Pedido { id, cliente_id, itens, valor_total }
    }

    pub fn id(&self) -> (id: PedidoId)
        ensures
            id.spec_uuid() == self@.id,
    {
        self.id
    }

    pub fn cliente_id(&self) -> (id: ClienteId)
        ensures
            id.spec_uuid() == self@.cliente_id,
    {
        self.cliente_id
    }

    pub fn itens(&self) -> (itens: &Vec<ItemPedido>)
        ensures
            item_views(itens@) == self@.itens,
    {
        &self.itens
    }

    pub fn valor_total(&self) -> (d: Dinheiro)
        ensures
            d.spec_centavos() == self@.valor_total,
    {
        self.valor_total
    }

    pub fn check_wf(&self)
        ensures
            pedido_wf(self@),
    {
        let n = self.itens.len();
        let mut i: usize = 0;
        while i < n
            invariant
                n == self.itens@.len(),
                i <= n,
                forall|k: int| 0 <= k < i ==> item_wf(#[trigger] item_views(self.itens@)[k]),
            decreases n - i,
        {
            self.itens[i].check_wf();
            i = i + 1;
        }
        self.valor_total.as_centavos();
    }

    pub fn duplicate(&self) -> (p: Pedido)
        ensures
            p@ == self@,
    {
        let n = self.itens.len();
        let mut itens: Vec<ItemPedido> = Vec::new();
        let mut i: usize = 0;
        while i < n
            invariant
                n == self.itens@.len(),
                i <= n,
                itens@.len() == i,
                forall|k: int| 0 <= k < i ==> (#[trigger] itens@[k])@ == self.itens@[k]@,
            decreases n - i,
        {
            itens.push(self.itens[i].duplicate());
            i = i + 1;
        }
        assert(item_views(itens@) =~= item_views(self.itens@));
        Pedido { id: self.id, cliente_id: self.cliente_id, itens, valor_total: self.valor_total }
    }
}

} // verus!
